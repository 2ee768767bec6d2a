use vstd::prelude::*;

use epaint::ahash::{AHashSet, RandomState};

verus! {

// The set of item names that the legend has hidden is an `AHashSet<String>` of
// the `ahash` crate (through `epaint`).
#[verifier::external_type_specification]
#[verifier::external_body]
#[verifier::reject_recursive_types(T)]
#[verifier::reject_recursive_types(S)]
pub struct ExAHashSet<T, S>(AHashSet<T, S>);

// Its default hasher, the `RandomState` of `ahash`.
#[verifier::external_type_specification]
#[verifier::external_body]
pub struct ExRandomState(RandomState);

/// The names that a set of item names holds, each by its characters.
pub uninterp spec fn name_set(names: AHashSet<String>) -> Set<Seq<char>>;

/// `AHashSet::default`: a new set, which holds no name.
#[verifier::external_body]
pub(crate) fn no_names() -> (names: AHashSet<String>)
    ensures
        name_set(names) == Set::<Seq<char>>::empty(),
{
    AHashSet::default()
}

/// `AHashSet::contains` (through its `Deref` to `std::collections::HashSet`):
/// whether the set holds a name with the characters of `name`.
#[verifier::external_body]
pub(crate) fn names_contain(names: &AHashSet<String>, name: &String) -> (b: bool)
    ensures
        b == name_set(*names).contains(name@),
{
    names.contains(name)
}

} // verus!
