//! Keys as the host names them.

use vstd::prelude::*;
use vstd::std_specs::cmp::PartialEqSpecImpl;

verus! {

/// Identifies a key by its position on the keyboard. The number is the
/// host's own code for the position.
#[derive(Clone, Copy, Debug, PartialEq, Eq, Structural, Hash)]
pub struct KeyCode(pub u32);

/// Identifies a key by the action that its label names (Enter, Shift,
/// ArrowLeft). The number is the host's own code for the name.
#[derive(Clone, Copy, Debug, PartialEq, Eq, Structural, Hash)]
pub struct NamedKey(pub u32);

/// A scan code that the host could not map to a [`KeyCode`].
#[derive(Clone, Copy, Debug, PartialEq, Eq, Structural, Hash)]
pub enum NativeKeyCode {
    Unidentified,
    Android(u32),
    MacOS(u16),
    Windows(u16),
    Xkb(u32),
}

/// The physical key of a keyboard event.
#[derive(Clone, Copy, Debug, PartialEq, Eq, Structural, Hash)]
pub enum PhysicalKey {
    Code(KeyCode),
    Unidentified(NativeKeyCode),
}

/// A key symbol that the host could not map to a [`LogicalKey`].
#[derive(Debug, Eq, Hash)]
pub enum NativeKey {
    Unidentified,
    Android(u32),
    MacOS(u16),
    Windows(u16),
    Xkb(u32),
    Web(String),
}

/// The key of a keyboard event after the keyboard layout was applied.
#[derive(Debug, Eq, Hash)]
pub enum LogicalKey {
    Named(NamedKey),
    Character(String),
    Unidentified(NativeKey),
    Dead(Option<char>),
}

/// Where on the keyboard a key sits, for keys that exist more than once.
#[derive(Clone, Copy, Debug, PartialEq, Eq, Structural, Hash)]
pub enum KeyLocation {
    Standard,
    Left,
    Right,
    Numpad,
}

/// Snapshot of the modifier keys: the host's bit set of active modifiers and
/// its bit set of the sides on which they are pressed.
#[derive(Clone, Copy, Debug, PartialEq, Eq, Structural, Hash)]
pub struct Modifiers {
    pub state: u32,
    pub pressed_mods: u8,
}

impl Default for Modifiers {
    fn default() -> (r: Self)
        ensures
            r == Modifiers::none(),
    {
        Modifiers { state: 0, pressed_mods: 0 }
    }
}

impl Modifiers {
    /// No modifier is active.
    pub open spec fn none() -> Modifiers {
        Modifiers { state: 0, pressed_mods: 0 }
    }
}

impl NativeKey {
    /// The same variant with the same payload, text compared by its
    /// characters.
    pub open spec fn is_same(&self, other: &NativeKey) -> bool {
        match (self, other) {
            (NativeKey::Unidentified, NativeKey::Unidentified) => true,
            (NativeKey::Android(a), NativeKey::Android(b)) => a == b,
            (NativeKey::MacOS(a), NativeKey::MacOS(b)) => a == b,
            (NativeKey::Windows(a), NativeKey::Windows(b)) => a == b,
            (NativeKey::Xkb(a), NativeKey::Xkb(b)) => a == b,
            (NativeKey::Web(a), NativeKey::Web(b)) => a@ == b@,
            _ => false,
        }
    }
}

impl Clone for NativeKey {
    fn clone(&self) -> (r: Self)
        ensures
            r == *self,
    {
        match self {
            NativeKey::Unidentified => NativeKey::Unidentified,
            NativeKey::Android(code) => NativeKey::Android(*code),
            NativeKey::MacOS(code) => NativeKey::MacOS(*code),
            NativeKey::Windows(code) => NativeKey::Windows(*code),
            NativeKey::Xkb(code) => NativeKey::Xkb(*code),
            NativeKey::Web(text) => NativeKey::Web(text.clone()),
        }
    }
}

impl PartialEq for NativeKey {
    fn eq(&self, other: &NativeKey) -> (r: bool) {
        match (self, other) {
            (NativeKey::Unidentified, NativeKey::Unidentified) => true,
            (NativeKey::Android(a), NativeKey::Android(b)) => *a == *b,
            (NativeKey::MacOS(a), NativeKey::MacOS(b)) => *a == *b,
            (NativeKey::Windows(a), NativeKey::Windows(b)) => *a == *b,
            (NativeKey::Xkb(a), NativeKey::Xkb(b)) => *a == *b,
            (NativeKey::Web(a), NativeKey::Web(b)) => *a == *b,
            _ => false,
        }
    }
}

impl PartialEqSpecImpl for NativeKey {
    open spec fn obeys_eq_spec() -> bool {
        true
    }

    open spec fn eq_spec(&self, other: &NativeKey) -> bool {
        self.is_same(other)
    }
}

impl LogicalKey {
    /// The same variant with the same payload, text compared by its
    /// characters.
    pub open spec fn is_same(&self, other: &LogicalKey) -> bool {
        match (self, other) {
            (LogicalKey::Named(a), LogicalKey::Named(b)) => a == b,
            (LogicalKey::Character(a), LogicalKey::Character(b)) => a@ == b@,
            (LogicalKey::Unidentified(a), LogicalKey::Unidentified(b)) => a.is_same(b),
            (LogicalKey::Dead(a), LogicalKey::Dead(b)) => a == b,
            _ => false,
        }
    }
}

impl Clone for LogicalKey {
    fn clone(&self) -> (r: Self)
        ensures
            r == *self,
    {
        match self {
            LogicalKey::Named(name) => LogicalKey::Named(*name),
            LogicalKey::Character(text) => LogicalKey::Character(text.clone()),
            LogicalKey::Unidentified(native) => LogicalKey::Unidentified(native.clone()),
            LogicalKey::Dead(accent) => LogicalKey::Dead(*accent),
        }
    }
}

impl PartialEq for LogicalKey {
    fn eq(&self, other: &LogicalKey) -> (r: bool) {
        match (self, other) {
            (LogicalKey::Named(a), LogicalKey::Named(b)) => *a == *b,
            (LogicalKey::Character(a), LogicalKey::Character(b)) => *a == *b,
            (LogicalKey::Unidentified(a), LogicalKey::Unidentified(b)) => *a == *b,
            (LogicalKey::Dead(a), LogicalKey::Dead(b)) => match (a, b) {
                (Some(x), Some(y)) => *x == *y,
                (None, None) => true,
                _ => false,
            },
            _ => false,
        }
    }
}

impl PartialEqSpecImpl for LogicalKey {
    open spec fn obeys_eq_spec() -> bool {
        true
    }

    open spec fn eq_spec(&self, other: &LogicalKey) -> bool {
        self.is_same(other)
    }
}

} // verus!
