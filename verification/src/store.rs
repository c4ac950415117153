//! The interface store: an arena of interfaces under stable handles, with an
//! index by name and an index by kernel index that never part from it.

use crate::arena::{
    arena_entries, arena_get, arena_insert, arena_keys, arena_len, arena_new, arena_remove,
    arena_set, Arena, ARENA_LIMIT,
};
use crate::common::{IfIndex, IfName, Interface, InterfaceView};
use crate::control::{IfControlError, INDEX_IN_USE, NO_SUCH_HANDLE};
use crate::key::IfKey;
use crate::names::{name_entries, names_get, names_insert, names_new, names_remove, NameIndex};
use std::collections::HashMap;
use vstd::prelude::*;

verus! {

broadcast use vstd::std_specs::hash::group_hash_axioms;

/// What a map holds under `k`, if anything.
pub open spec fn lookup<K, V>(m: Map<K, V>, k: K) -> Option<V> {
    if m.contains_key(k) {
        Some(m[k])
    } else {
        None
    }
}

/// The interfaces that the manager knows, each under its handle.
pub struct IfStore {
    id_with_key: Arena,
    id_with_name: NameIndex,
    id_with_ifindex: HashMap<i32, IfKey>,
}

impl View for IfStore {
    type V = Map<IfKey, InterfaceView>;

    /// The arena: every live handle with its interface.
    closed spec fn view(&self) -> Map<IfKey, InterfaceView> {
        arena_entries(self.id_with_key)
    }
}

impl IfStore {
    /// The name index: the handle filed under each name.
    pub closed spec fn names(&self) -> Map<Seq<char>, IfKey> {
        name_entries(self.id_with_name)
    }

    /// The index by kernel index: the handle filed under each number.
    pub closed spec fn indices(&self) -> Map<i32, IfKey> {
        self.id_with_ifindex@
    }

    /// The handle that the name index gives for `name`.
    pub open spec fn name_lookup(&self, name: Seq<char>) -> Option<IfKey> {
        lookup(self.names(), name)
    }

    /// The handle that the index by kernel index gives for `ifindex`.
    pub open spec fn ifindex_lookup(&self, ifindex: i32) -> Option<IfKey> {
        lookup(self.indices(), ifindex)
    }

    /// The arena and its two indices agree. Every live interface carries its
    /// own handle and is filed under its name and under its kernel index;
    /// every entry of either index leads to a live interface that has that
    /// very name, or that very kernel index. So no entry dangles, and no two
    /// live interfaces share a name or a kernel index.
    pub open spec fn wf(&self) -> bool {
        &&& self@.dom().finite()
        &&& forall|k: IfKey| #[trigger]
            self@.contains_key(k) ==> {
                &&& self@[k].key == k
                &&& self.name_lookup(self@[k].name) == Some(k)
                &&& self.ifindex_lookup(self@[k].ifindex) == Some(k)
            }
        &&& forall|n: Seq<char>| #[trigger]
            self.names().contains_key(n) ==> {
                &&& self@.contains_key(self.names()[n])
                &&& self@[self.names()[n]].name == n
            }
        &&& forall|i: i32| #[trigger]
            self.indices().contains_key(i) ==> {
                &&& self@.contains_key(self.indices()[i])
                &&& self@[self.indices()[i]].ifindex == i
            }
    }

    /// The live interface that an observation `seen` is taken to be of: the
    /// one with `seen`'s kernel index, or, where there is none, the one with
    /// `seen`'s name.
    pub open spec fn matching(&self, seen: InterfaceView) -> Option<IfKey> {
        if self.ifindex_lookup(seen.ifindex) is Some {
            self.ifindex_lookup(seen.ifindex)
        } else {
            self.name_lookup(seen.name)
        }
    }

    /// The live interface that has to leave before `seen` is stored: the one
    /// that holds `seen`'s name while `seen` is taken to be of another.
    pub open spec fn displaced(&self, seen: InterfaceView) -> Option<IfKey> {
        if self.matching(seen) is Some && self.name_lookup(seen.name) is Some
            && self.name_lookup(seen.name) != self.matching(seen) {
            self.name_lookup(seen.name)
        } else {
            None
        }
    }

    /// The arena after `seen` has been stored and `r` has been returned for
    /// it. Where `seen` matches a live interface, that interface is
    /// refreshed in place, after the one that `seen` displaces has left;
    /// where it matches none, `seen` enters under `r`.
    pub open spec fn upserted(&self, seen: InterfaceView, r: IfKey) -> Map<IfKey, InterfaceView> {
        match self.matching(seen) {
            Some(h) => {
                let rest = match self.displaced(seen) {
                    Some(d) => self@.remove(d),
                    None => self@,
                };
                rest.insert(h, self@[h].refreshed(seen))
            },
            None => self@.insert(r, seen.with_key(r)),
        }
    }

    /// A store that holds nothing.
    pub fn new() -> (s: Self)
        ensures
            s.wf(),
            s@ == Map::<IfKey, InterfaceView>::empty(),
    {
        let s = IfStore {
            id_with_key: arena_new(),
            id_with_name: names_new(),
            id_with_ifindex: HashMap::new(),
        };
        assert(s@ =~= Map::<IfKey, InterfaceView>::empty());
        assert(s.names() =~= Map::<Seq<char>, IfKey>::empty());
        s
    }

    /// Number of live interfaces.
    pub fn len(&self) -> (n: usize)
        ensures
            n == self@.len(),
    {
        arena_len(&self.id_with_key)
    }

    /// The live handles, each once, in no particular order.
    pub fn keys(&self) -> (keys: Vec<IfKey>)
        ensures
            keys@.no_duplicates(),
            forall|k: IfKey| keys@.contains(k) <==> self@.contains_key(k),
    {
        arena_keys(&self.id_with_key)
    }

    /// The interface under handle `k`, if `k` is live.
    pub fn get(&self, k: IfKey) -> (r: Option<&Interface>)
        ensures
            r.is_some() == self@.contains_key(k),
            r.is_some() ==> r.unwrap()@ == self@[k],
    {
        arena_get(&self.id_with_key, k)
    }

    /// The handle of the interface named `name`, if there is one.
    pub fn id_with_name(&self, name: &str) -> (r: Option<IfKey>)
        ensures
            r == self.name_lookup(name@),
    {
        names_get(&self.id_with_name, name)
    }

    /// The handle of the interface with kernel index `index`, if there is
    /// one.
    pub fn id_with_ifindex(&self, index: i32) -> (r: Option<IfKey>)
        ensures
            r == self.ifindex_lookup(index),
    {
        match self.id_with_ifindex.get(&index) {
            Some(k) => Some(*k),
            None => None,
        }
    }

    /// Takes the interface under handle `k` out of the arena and out of both
    /// indices, and returns it. With a handle that is not live nothing
    /// changes.
    pub fn remove(&mut self, k: IfKey) -> (r: Option<Interface>)
        requires
            old(self).wf(),
        ensures
            final(self).wf(),
            final(self)@ == old(self)@.remove(k),
            r.is_some() == old(self)@.contains_key(k),
            r.is_some() ==> r.unwrap()@ == old(self)@[k],
            final(self).names() == if old(self)@.contains_key(k) {
                old(self).names().remove(old(self)@[k].name)
            } else {
                old(self).names()
            },
            final(self).indices() == if old(self)@.contains_key(k) {
                old(self).indices().remove(old(self)@[k].ifindex)
            } else {
                old(self).indices()
            },
    {
        match arena_remove(&mut self.id_with_key, k) {
            Some(ifp) => {
                names_remove(&mut self.id_with_name, ifp.name.0.as_str());
                self.id_with_ifindex.remove(&ifp.ifindex.0);
                assert(self.indices() =~= old(self).indices().remove(ifp@.ifindex));
                Some(ifp)
            },
            None => {
                assert(self@ =~= old(self)@);
                None
            },
        }
    }

    /// Stores the observation `ifp` of an interface and returns the handle
    /// under which it now stands.
    ///
    /// Where a live interface has `ifp`'s kernel index, or, failing that,
    /// `ifp`'s name, that interface is refreshed in place and keeps its
    /// handle and its role; every other field is taken from `ifp`. A live
    /// interface that holds `ifp`'s name while another one is refreshed
    /// leaves the store, so that names stay unique. Where nothing matches,
    /// `ifp` enters under a handle that was not live. The `key` that `ifp`
    /// carries is never read.
    pub fn insert(&mut self, ifp: Interface) -> (r: IfKey)
        requires
            old(self).wf(),
            old(self)@.len() < ARENA_LIMIT,
        ensures
            final(self).wf(),
            old(self).matching(ifp@) is Some ==> old(self).matching(ifp@) == Some(r),
            old(self).matching(ifp@) is None ==> !old(self)@.contains_key(r),
            final(self)@ == old(self).upserted(ifp@, r),
            final(self)@.contains_key(r),
            final(self).name_lookup(ifp@.name) == Some(r),
            final(self).ifindex_lookup(ifp@.ifindex) == Some(r),
    {
        let by_index = self.id_with_ifindex(ifp.ifindex.0);
        let by_name = self.id_with_name(ifp.name.0.as_str());
        let target = match by_index {
            Some(h) => Some(h),
            None => by_name,
        };
        match target {
            Some(h) => {
                match by_name {
                    Some(d) => {
                        if d != h {
                            self.remove(d);
                        }
                    },
                    None => {},
                }
                let merged = match arena_get(&self.id_with_key, h) {
                    Some(entry) => entry.refreshed(ifp),
                    None => ifp,
                };
                self.replace_entry(h, merged);
                h
            },
            None => {
                let name = ifp.name.0.clone();
                let index = ifp.ifindex.0;
                let k = arena_insert(&mut self.id_with_key, ifp);
                names_insert(&mut self.id_with_name, name, k);
                self.id_with_ifindex.insert(index, k);
                assert(self.indices() =~= old(self).indices().insert(index, k));
                k
            },
        }
    }

    /// Puts `ifp` in the place of the interface under the live handle `k`
    /// and files it anew in both indices.
    fn replace_entry(&mut self, k: IfKey, ifp: Interface)
        requires
            old(self).wf(),
            old(self)@.contains_key(k),
            ifp@.key == k,
            old(self).name_lookup(ifp@.name) is None || old(self).name_lookup(ifp@.name) == Some(k),
            old(self).ifindex_lookup(ifp@.ifindex) is None || old(self).ifindex_lookup(
                ifp@.ifindex,
            ) == Some(k),
        ensures
            final(self).wf(),
            final(self)@ == old(self)@.insert(k, ifp@),
            final(self).names() == old(self).names().remove(old(self)@[k].name).insert(
                ifp@.name,
                k,
            ),
            final(self).indices() == old(self).indices().remove(old(self)@[k].ifindex).insert(
                ifp@.ifindex,
                k,
            ),
    {
        let (old_name, old_index) = match arena_get(&self.id_with_key, k) {
            Some(entry) => (entry.name.0.clone(), entry.ifindex.0),
            None => (String::new(), 0),
        };
        names_remove(&mut self.id_with_name, old_name.as_str());
        names_insert(&mut self.id_with_name, ifp.name.0.clone(), k);
        self.id_with_ifindex.remove(&old_index);
        self.id_with_ifindex.insert(ifp.ifindex.0, k);
        assert(self.indices() =~= old(self).indices().remove(old_index).insert(ifp@.ifindex, k));
        arena_set(&mut self.id_with_key, k, ifp);
    }

    /// Gives the interface under handle `k` the name `new_name`.
    ///
    /// Fails with `NotFound` where `k` is not live, and with `Invalid` where
    /// another live interface holds `new_name`; the store is then as it was.
    /// Otherwise the name index loses the old name and gains the new one,
    /// the interface's `name` follows, and nothing else changes.
    pub fn rename_index(&mut self, k: IfKey, new_name: String) -> (r: Result<(), IfControlError>)
        requires
            old(self).wf(),
        ensures
            final(self).wf(),
            match r {
                Ok(_) => {
                    &&& old(self)@.contains_key(k)
                    &&& old(self).name_lookup(new_name@) is None || old(self).name_lookup(
                        new_name@,
                    ) == Some(k)
                    &&& final(self)@ == old(self)@.insert(
                        k,
                        (InterfaceView { name: new_name@, ..old(self)@[k] }),
                    )
                    &&& final(self).names() == old(self).names().remove(old(self)@[k].name).insert(
                        new_name@,
                        k,
                    )
                    &&& final(self).indices() == old(self).indices()
                    &&& final(self).name_lookup(new_name@) == Some(k)
                    &&& old(self)@[k].name != new_name@ ==> final(self).name_lookup(
                        old(self)@[k].name,
                    ) is None
                },
                Err(IfControlError::NotFound(m)) => {
                    &&& !old(self)@.contains_key(k)
                    &&& m@ == NO_SUCH_HANDLE@
                    &&& *final(self) == *old(self)
                },
                Err(IfControlError::Invalid(m)) => {
                    &&& old(self)@.contains_key(k)
                    &&& old(self).name_lookup(new_name@) is Some
                    &&& old(self).name_lookup(new_name@) != Some(k)
                    &&& m@ == new_name@
                    &&& *final(self) == *old(self)
                },
                Err(_) => false,
            },
    {
        let entry = match arena_get(&self.id_with_key, k) {
            Some(entry) => entry.clone(),
            None => {
                return Err(IfControlError::NotFound(NO_SUCH_HANDLE.to_owned()));
            },
        };
        match names_get(&self.id_with_name, new_name.as_str()) {
            Some(holder) => {
                if holder != k {
                    return Err(IfControlError::Invalid(new_name));
                }
            },
            None => {},
        }
        let renamed = Interface { name: IfName(new_name), ..entry };
        self.replace_entry(k, renamed);
        proof {
            assert(self.indices() =~= old(self).indices());
        }
        Ok(())
    }

    /// Gives the interface under handle `k` the kernel index `ifindex`.
    ///
    /// Fails with `NotFound` where `k` is not live, and with `Invalid` where
    /// another live interface holds `ifindex`; the store is then as it was.
    /// Otherwise the entry under the old kernel index leaves the index, the
    /// one under the new kernel index enters it, the interface's `ifindex`
    /// follows, and nothing else changes.
    pub fn update_ifindex(&mut self, k: IfKey, ifindex: i32) -> (r: Result<(), IfControlError>)
        requires
            old(self).wf(),
        ensures
            final(self).wf(),
            match r {
                Ok(_) => {
                    &&& old(self)@.contains_key(k)
                    &&& old(self).ifindex_lookup(ifindex) is None || old(self).ifindex_lookup(
                        ifindex,
                    ) == Some(k)
                    &&& final(self)@ == old(self)@.insert(
                        k,
                        (InterfaceView { ifindex: ifindex, ..old(self)@[k] }),
                    )
                    &&& final(self).indices() == old(self).indices().remove(
                        old(self)@[k].ifindex,
                    ).insert(ifindex, k)
                    &&& final(self).names() == old(self).names()
                    &&& final(self).ifindex_lookup(ifindex) == Some(k)
                    &&& old(self)@[k].ifindex != ifindex ==> final(self).ifindex_lookup(
                        old(self)@[k].ifindex,
                    ) is None
                },
                Err(IfControlError::NotFound(m)) => {
                    &&& !old(self)@.contains_key(k)
                    &&& m@ == NO_SUCH_HANDLE@
                    &&& *final(self) == *old(self)
                },
                Err(IfControlError::Invalid(m)) => {
                    &&& old(self)@.contains_key(k)
                    &&& old(self).ifindex_lookup(ifindex) is Some
                    &&& old(self).ifindex_lookup(ifindex) != Some(k)
                    &&& m@ == INDEX_IN_USE@
                    &&& *final(self) == *old(self)
                },
                Err(_) => false,
            },
    {
        let entry = match arena_get(&self.id_with_key, k) {
            Some(entry) => entry.clone(),
            None => {
                return Err(IfControlError::NotFound(NO_SUCH_HANDLE.to_owned()));
            },
        };
        match self.id_with_ifindex(ifindex) {
            Some(holder) => {
                if holder != k {
                    return Err(IfControlError::Invalid(INDEX_IN_USE.to_owned()));
                }
            },
            None => {},
        }
        let moved = Interface { ifindex: IfIndex(ifindex), ..entry };
        self.replace_entry(k, moved);
        proof {
            assert(self.names() =~= old(self).names());
        }
        Ok(())
    }
}

/// No two live interfaces share a name: live handles whose interfaces have
/// the same name are one handle.
pub proof fn law_name_unique(s: IfStore, a: IfKey, b: IfKey)
    requires
        s.wf(),
        s@.contains_key(a),
        s@.contains_key(b),
        s@[a].name == s@[b].name,
    ensures
        a == b,
{
}

/// No two live interfaces share a kernel index: live handles whose
/// interfaces have the same kernel index are one handle.
pub proof fn law_ifindex_unique(s: IfStore, a: IfKey, b: IfKey)
    requires
        s.wf(),
        s@.contains_key(a),
        s@.contains_key(b),
        s@[a].ifindex == s@[b].ifindex,
    ensures
        a == b,
{
}

/// A lookup never gives a handle that is not live: whatever either index
/// holds for a name or a kernel index is the handle of a live interface with
/// that name, or that kernel index.
pub proof fn law_lookup_live(s: IfStore, name: Seq<char>, ifindex: i32)
    requires
        s.wf(),
    ensures
        s.name_lookup(name) matches Some(k) ==> s@.contains_key(k) && s@[k].name == name,
        s.ifindex_lookup(ifindex) matches Some(k) ==> s@.contains_key(k) && s@[k].ifindex
            == ifindex,
{
}

} // verus!
