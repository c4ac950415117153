//! The arena: a slot map that holds the interfaces, each under a key of its
//! own. Everything here is a statement about `slotmap::SlotMap` that Verus
//! takes on trust.

use crate::common::{Interface, InterfaceView};
use crate::key::IfKey;
use slotmap::{DefaultKey, SlotMap};
use vstd::prelude::*;

verus! {

/// A `slotmap::SlotMap` from handles to interfaces: storage that gives each
/// value a versioned key. The map itself stays hidden from Verus, which
/// knows of it only what the functions below state.
#[verifier::external_body]
pub struct Arena {
    slots: SlotMap<DefaultKey, Interface>,
}

/// What a slot map holds: each key that is valid in it, with the value stored
/// under that key.
pub uninterp spec fn arena_entries(m: Arena) -> Map<IfKey, InterfaceView>;

/// Number of values that a slot map can hold, by the crate's documentation:
/// 2^32 - 2. `SlotMap::insert` panics on a map that holds as many.
pub const ARENA_LIMIT: usize = 0xffff_fffe;

/// `SlotMap::new`: a slot map that holds nothing.
#[verifier::external_body]
pub(crate) fn arena_new() -> (arena: Arena)
    ensures
        arena_entries(arena).dom() == Set::<IfKey>::empty(),
{
    Arena { slots: SlotMap::new() }
}

/// `SlotMap::len`: the number of values held.
#[verifier::external_body]
pub(crate) fn arena_len(m: &Arena) -> (n: usize)
    ensures
        n == arena_entries(*m).len(),
{
    m.slots.len()
}

/// `SlotMap::insert_with_key`: stores `ifp` under a key that was not valid
/// before, with that key written into the stored value, and returns the key.
/// Nothing else in the map changes. The map must hold fewer than
/// `ARENA_LIMIT` values.
#[verifier::external_body]
pub(crate) fn arena_insert(m: &mut Arena, ifp: Interface) -> (k: IfKey)
    requires
        arena_entries(*old(m)).dom().finite(),
        arena_entries(*old(m)).len() < ARENA_LIMIT,
    ensures
        !arena_entries(*old(m)).contains_key(k),
        arena_entries(*final(m)) == arena_entries(*old(m)).insert(k, ifp@.with_key(k)),
{
    IfKey::from_raw(m.slots.insert_with_key(|raw| ifp.with_key(IfKey::from_raw(raw))))
}

/// `SlotMap::get`: the value stored under `k`, if `k` is valid.
#[verifier::external_body]
pub(crate) fn arena_get(m: &Arena, k: IfKey) -> (r: Option<&Interface>)
    ensures
        r.is_some() == arena_entries(*m).contains_key(k),
        r.is_some() ==> r.unwrap()@ == arena_entries(*m)[k],
{
    m.slots.get(k.to_raw())
}

/// `SlotMap`'s `IndexMut`: overwrites the value stored under the valid key
/// `k`. Nothing else in the map changes.
#[verifier::external_body]
pub(crate) fn arena_set(m: &mut Arena, k: IfKey, ifp: Interface)
    requires
        arena_entries(*old(m)).contains_key(k),
    ensures
        arena_entries(*final(m)) == arena_entries(*old(m)).insert(k, ifp@),
{
    m.slots[k.to_raw()] = ifp;
}

/// `SlotMap::remove`: takes out the value stored under `k`, if `k` is valid,
/// and returns it. Nothing else in the map changes.
#[verifier::external_body]
pub(crate) fn arena_remove(m: &mut Arena, k: IfKey) -> (r: Option<Interface>)
    ensures
        arena_entries(*final(m)) == arena_entries(*old(m)).remove(k),
        r.is_some() == arena_entries(*old(m)).contains_key(k),
        r.is_some() ==> r.unwrap()@ == arena_entries(*old(m))[k],
{
    m.slots.remove(k.to_raw())
}

/// `SlotMap::keys`: every valid key, once. The crate leaves their order
/// open.
#[verifier::external_body]
pub(crate) fn arena_keys(m: &Arena) -> (keys: Vec<IfKey>)
    ensures
        keys@.no_duplicates(),
        forall|k: IfKey| keys@.contains(k) <==> arena_entries(*m).contains_key(k),
{
    m.slots.keys().map(|raw| IfKey::from_raw(raw)).collect()
}

} // verus!
