//! Sets of attribute names, held in a `rustc_hash::FxHashSet`.
use vstd::prelude::*;
use rustc_hash::{FxHashSet, FxHasher};
use std::hash::BuildHasherDefault;

verus! {

/// rustc_hash's hasher, carried as an opaque value.
#[verifier::external_type_specification]
#[verifier::external_body]
pub struct ExFxHasher(FxHasher);

/// std's hasher builder that makes each hasher with `Default`.
#[verifier::external_type_specification]
#[verifier::external_body]
#[verifier::reject_recursive_types(H)]
pub struct ExBuildHasherDefault<H>(BuildHasherDefault<H>);

/// The names that a set holds.
pub uninterp spec fn names_in(s: FxHashSet<String>) -> Set<Seq<char>>;

/// Relies on `FxHashSet::default` (std's `HashSet` with rustc_hash's
/// `FxHasher`): a new set is empty.
#[verifier::external_body]
pub(crate) fn name_set_new() -> (r: FxHashSet<String>)
    ensures
        names_in(r) == Set::<Seq<char>>::empty(),
{
    FxHashSet::default()
}

/// Relies on `HashSet::insert` of an `FxHashSet<String>`: afterwards the set
/// holds the name as well as what it held.
#[verifier::external_body]
pub(crate) fn name_set_insert(s: &mut FxHashSet<String>, name: String)
    ensures
        names_in(*final(s)) == names_in(*old(s)).insert(name@),
{
    s.insert(name);
}

/// Relies on `HashSet::contains` of an `FxHashSet<String>`: whether the set
/// holds the name.
#[verifier::external_body]
pub(crate) fn name_set_contains(s: &FxHashSet<String>, name: &str) -> (r: bool)
    ensures
        r == names_in(*s).contains(name@),
{
    s.contains(name)
}

} // verus!
