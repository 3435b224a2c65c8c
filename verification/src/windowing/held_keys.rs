//! The hash sets that remember which keys are down.
//!
//! The sets are `ahash::AHashSet`s of key codes. Verus does not look inside
//! them: what a set holds is named by [`codes_in`], and what each operation
//! does to it is taken from the documentation of the standard hash set that
//! `AHashSet` dereferences to.

use ahash::AHashSet;
use vstd::prelude::*;

verus! {

/// `ahash::AHashSet`, carried as an opaque value.
#[verifier::external_type_specification]
#[verifier::external_body]
#[verifier::reject_recursive_types(T)]
#[verifier::reject_recursive_types(S)]
pub struct ExAHashSet<T, S>(AHashSet<T, S>);

/// `ahash::RandomState`, the hasher state inside an `AHashSet`; opaque.
#[verifier::external_type_specification]
#[verifier::external_body]
pub struct ExRandomState(ahash::RandomState);

/// The codes that a set holds.
pub uninterp spec fn codes_in(set: AHashSet<u32>) -> Set<u32>;

/// Makes an empty set.
///
/// Calls `AHashSet::new`, which builds an empty hash set.
#[verifier::external_body]
pub(crate) fn new_code_set() -> (set: AHashSet<u32>)
    ensures
        codes_in(set) == Set::<u32>::empty(),
{
    AHashSet::new()
}

/// Copies a set.
///
/// Calls the `Clone` that `AHashSet` derives, which clones the standard hash
/// set inside it: the copy holds what the set holds.
#[verifier::external_body]
pub(crate) fn clone_code_set(set: &AHashSet<u32>) -> (copy: AHashSet<u32>)
    ensures
        codes_in(copy) == codes_in(*set),
{
    set.clone()
}

/// Adds a code to a set.
///
/// Calls `HashSet::insert` through `AHashSet`: afterwards the set holds the
/// code besides what it held.
#[verifier::external_body]
pub(crate) fn insert_code(set: &mut AHashSet<u32>, code: u32)
    ensures
        codes_in(*final(set)) == codes_in(*old(set)).insert(code),
{
    set.insert(code);
}

/// Takes a code out of a set.
///
/// Calls `HashSet::remove` through `AHashSet`: afterwards the set holds what
/// it held but the code.
#[verifier::external_body]
pub(crate) fn remove_code(set: &mut AHashSet<u32>, code: u32)
    ensures
        codes_in(*final(set)) == codes_in(*old(set)).remove(code),
{
    set.remove(&code);
}

/// Tells whether a set holds a code.
///
/// Calls `HashSet::contains` through `AHashSet`.
#[verifier::external_body]
pub(crate) fn holds_code(set: &AHashSet<u32>, code: u32) -> (held: bool)
    ensures
        held == codes_in(*set).contains(code),
{
    set.contains(&code)
}

} // verus!
