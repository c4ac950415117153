//! The name index: an insertion-ordered hash map from interface name to
//! handle. Everything here is a statement about `indexmap::IndexMap` that
//! Verus takes on trust.

use crate::key::IfKey;
use indexmap::IndexMap;
use std::collections::hash_map::RandomState;
use vstd::prelude::*;

verus! {

/// `indexmap::IndexMap`, a hash map that remembers the order of insertion.
#[verifier::external_type_specification]
#[verifier::external_body]
#[verifier::reject_recursive_types(K)]
#[verifier::reject_recursive_types(V)]
#[verifier::reject_recursive_types(S)]
pub struct ExIndexMap<K, V, S>(IndexMap<K, V, S>);

/// The name index's type: a map from names to handles.
pub type NameIndex = IndexMap<String, IfKey, RandomState>;

/// What a name index holds: each name that is a key in it, with the handle
/// stored under that name.
pub uninterp spec fn name_entries(m: NameIndex) -> Map<Seq<char>, IfKey>;

/// `IndexMap::new`: a map that holds nothing.
#[verifier::external_body]
pub(crate) fn names_new() -> (m: NameIndex)
    ensures
        name_entries(m).dom() == Set::<Seq<char>>::empty(),
{
    IndexMap::new()
}

/// `IndexMap::insert`: stores `k` under `name`, in place of what was stored
/// under an equal name before. Nothing else in the map changes.
#[verifier::external_body]
pub(crate) fn names_insert(m: &mut NameIndex, name: String, k: IfKey)
    ensures
        name_entries(*final(m)) == name_entries(*old(m)).insert(name@, k),
{
    m.insert(name, k);
}

/// `IndexMap::get`: the handle stored under `name`, if there is one.
#[verifier::external_body]
pub(crate) fn names_get(m: &NameIndex, name: &str) -> (r: Option<IfKey>)
    ensures
        r == if name_entries(*m).contains_key(name@) {
            Some(name_entries(*m)[name@])
        } else {
            None
        },
{
    m.get(name).copied()
}

/// `IndexMap::swap_remove`: takes out what is stored under `name`, if
/// anything. Nothing else in the map changes but the order of its pairs.
#[verifier::external_body]
pub(crate) fn names_remove(m: &mut NameIndex, name: &str)
    ensures
        name_entries(*final(m)) == name_entries(*old(m)).remove(name@),
{
    m.swap_remove(name);
}

} // verus!
