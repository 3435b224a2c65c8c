//! Choosing among the graphics configurations that a display offers.

use vstd::prelude::*;

verus! {

/// What the choice reads of a graphics configuration.
#[derive(Clone, Copy, Debug, PartialEq, Eq, Structural, Hash)]
pub struct GlConfigTraits {
    /// Whether the configuration supports transparency, where the display
    /// can tell.
    pub supports_transparency: Option<bool>,
    /// The number of samples for multisampling.
    pub num_samples: u8,
}

impl GlConfigTraits {
    /// The configuration is known to support transparency.
    pub open spec fn is_transparent(self) -> bool {
        self.supports_transparency == Some(true)
    }

    /// The configuration replaces the one chosen so far: it brings
    /// transparency that the other lacks, or it has more samples.
    pub open spec fn replaces(self, chosen: GlConfigTraits) -> bool {
        (self.is_transparent() && !chosen.is_transparent()) || self.num_samples
            > chosen.num_samples
    }

    fn transparent(&self) -> (r: bool)
        ensures
            r == self.is_transparent(),
    {
        match self.supports_transparency {
            Some(supported) => supported,
            None => false,
        }
    }
}

/// The index that is chosen among the first `count` configurations: the
/// first one to begin with, then each one that replaces the one chosen
/// before it.
pub open spec fn picked(configs: Seq<GlConfigTraits>, count: nat) -> int
    decreases count,
{
    if count <= 1 {
        0
    } else {
        let before: int = picked(configs, (count - 1) as nat);
        if configs[count - 1].replaces(configs[before]) {
            count - 1
        } else {
            before
        }
    }
}

/// Picks a configuration: walks the list once and moves on to a
/// configuration whenever it supports transparency and the one chosen so
/// far does not, or has more samples than it. Returns the index of the
/// configuration that is chosen at the end.
pub fn default_gl_config_picker(configs: &Vec<GlConfigTraits>) -> (index: usize)
    requires
        configs.len() > 0,
    ensures
        index < configs.len(),
        index == picked(configs@, configs@.len()),
{
    let mut chosen: usize = 0;
    let mut i: usize = 1;
    while i < configs.len()
        invariant
            1 <= i <= configs.len(),
            chosen < i,
            chosen == picked(configs@, i as nat),
        decreases configs.len() - i,
    {
        let config = &configs[i];
        let prev_config = &configs[chosen];
        let transparency_check = config.transparent() && !prev_config.transparent();
        if transparency_check || config.num_samples > prev_config.num_samples {
            chosen = i;
        }
        i += 1;
    }
    chosen
}

} // verus!
