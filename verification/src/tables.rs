//! Maps and sets whose keys are spellings.
use starlark_map::small_map::SmallMap;
use starlark_map::small_set::SmallSet;
use vstd::prelude::*;

use crate::tokens::Token;

verus! {

#[verifier::external_type_specification]
#[verifier::external_body]
#[verifier::reject_recursive_types(K)]
#[verifier::reject_recursive_types(V)]
pub struct ExSmallMap<K, V>(SmallMap<K, V>);

#[verifier::external_type_specification]
#[verifier::external_body]
#[verifier::reject_recursive_types(T)]
pub struct ExSmallSet<T>(SmallSet<T>);

/// What a map from spellings to positions holds.
pub uninterp spec fn entries_of(m: SmallMap<Vec<Token>, usize>) -> Map<Seq<Token>, usize>;

/// What a set of spellings holds.
pub uninterp spec fn elements_of(s: SmallSet<Vec<Token>>) -> Set<Seq<Token>>;

/// [`SmallMap::new`]: a map without entries.
#[verifier::external_body]
pub(crate) fn map_new() -> (r: SmallMap<Vec<Token>, usize>)
    ensures
        entries_of(r) == (Map::<Seq<Token>, usize>::empty()),
{
    SmallMap::new()
}

/// [`SmallMap::insert`]: gives `key` the value `value`, in place of the value that it had.
#[verifier::external_body]
pub(crate) fn map_insert(m: &mut SmallMap<Vec<Token>, usize>, key: Vec<Token>, value: usize)
    ensures
        entries_of(*final(m)) == entries_of(*old(m)).insert(key@, value),
{
    m.insert(key, value);
}

/// [`SmallMap::get`]: the value of `key`, where it has one.
#[verifier::external_body]
pub(crate) fn map_get(m: &SmallMap<Vec<Token>, usize>, key: &Vec<Token>) -> (r: Option<usize>)
    ensures
        r == (if entries_of(*m).dom().contains(key@) {
            Some(entries_of(*m)[key@])
        } else {
            None
        }),
{
    m.get(key).copied()
}

/// [`SmallMap::is_empty`]: does the map hold no entries?
#[verifier::external_body]
pub(crate) fn map_is_empty(m: &SmallMap<Vec<Token>, usize>) -> (r: bool)
    ensures
        r == (entries_of(*m) == (Map::<Seq<Token>, usize>::empty())),
{
    m.is_empty()
}

/// [`SmallSet::new`]: a set without elements.
#[verifier::external_body]
pub(crate) fn set_new() -> (r: SmallSet<Vec<Token>>)
    ensures
        elements_of(r) == (Set::<Seq<Token>>::empty()),
{
    SmallSet::new()
}

/// [`SmallSet::insert`]: adds `key`, and tells whether it was not there before.
#[verifier::external_body]
pub(crate) fn set_insert(s: &mut SmallSet<Vec<Token>>, key: Vec<Token>) -> (r: bool)
    ensures
        elements_of(*final(s)) == elements_of(*old(s)).insert(key@),
        r == !elements_of(*old(s)).contains(key@),
{
    s.insert(key)
}

} // verus!
