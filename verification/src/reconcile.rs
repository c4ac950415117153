//! Reconciliation: making the store reflect a kernel table.
//!
//! Every row of the table is stored in turn, each either refreshing the live
//! interface that it matches or entering as a new one. The interfaces that
//! were live before the pass and that no row has reached then leave.

use crate::arena::ARENA_LIMIT;
use crate::common::{IfRoleType, InterfaceView};
use crate::control::{
    observation, observe, role_of, sync_outcome, table_valid, IfAddrRecord, IfKernelTable,
    IfKernelTableView, IfLinkRecordView,
};
use crate::key::IfKey;
use crate::store::IfStore;
use std::time::SystemTime;
use vstd::prelude::*;

verus! {

/// The interface that a table row describes, standing under `key` with role
/// `role`.
pub open spec fn row_entry(
    link: IfLinkRecordView,
    addrs: Seq<IfAddrRecord>,
    now: SystemTime,
    key: IfKey,
    role: IfRoleType,
) -> InterfaceView {
    InterfaceView { role, ..observation(link, addrs, now, key) }
}

/// None of the first `upto` rows has the kernel index or the name of `e`.
pub open spec fn unclaimed(e: InterfaceView, links: Seq<IfLinkRecordView>, upto: int) -> bool {
    forall|i: int|
        0 <= i < upto ==> (#[trigger] links[i]).ifindex != e.ifindex && links[i].name != e.name
}

/// The interface of `pre` that row `j` refreshes, if it refreshes one: the
/// interface with the row's kernel index, or else the one with the row's
/// name, provided that no row before row `j` has the kernel index or the
/// name of that interface.
pub open spec fn kept(pre: IfStore, links: Seq<IfLinkRecordView>, j: int) -> Option<IfKey> {
    let by_index = pre.ifindex_lookup(links[j].ifindex);
    let by_name = pre.name_lookup(links[j].name);
    if by_index is Some && unclaimed(pre@[by_index->0], links, j) {
        by_index
    } else if by_name is Some && unclaimed(pre@[by_name->0], links, j) {
        by_name
    } else {
        None
    }
}

/// The role under which row `j` stands after the pass: that of the
/// interface which the row refreshes, or, where it refreshes none, the role
/// that the row gives.
pub open spec fn settled_role(pre: IfStore, links: Seq<IfLinkRecordView>, j: int) -> IfRoleType {
    match kept(pre, links, j) {
        Some(h) => pre@[h].role,
        None => role_of(links[j]),
    }
}

/// Some row has the kernel index `ifindex`.
pub open spec fn index_listed(links: Seq<IfLinkRecordView>, ifindex: i32) -> bool {
    exists|i: int| 0 <= i < links.len() && (#[trigger] links[i]).ifindex == ifindex
}

/// Row `j` of the table stands in the arena `m` under the handle `k`: the
/// interface under `k` has every field as the row gives it, observed at
/// `now`, and the role settled for the row. Where the row refreshes an
/// interface of `pre`, `k` is the handle of that interface; where it
/// refreshes none, `k` is not the handle of an interface of `pre` that no
/// earlier row has claimed.
pub open spec fn stands(
    pre: IfStore,
    m: Map<IfKey, InterfaceView>,
    table: IfKernelTableView,
    now: SystemTime,
    j: int,
    k: IfKey,
) -> bool {
    &&& m.contains_key(k)
    &&& m[k] == row_entry(table.links[j], table.addrs, now, k, settled_role(pre, table.links, j))
    &&& match kept(pre, table.links, j) {
        Some(h) => h == k,
        None => !(pre@.contains_key(k) && unclaimed(pre@[k], table.links, j)),
    }
}

/// What a reconciliation pass over `table` at `now` makes of the store `pre`.
///
/// - Every row of the table stands in `post`, under the handle that `post`
///   has for the row's kernel index.
/// - `post` holds nothing but the rows.
/// - An interface of `pre` whose kernel index and name are in no row is not
///   in `post`.
pub open spec fn reconciled(
    pre: IfStore,
    post: IfStore,
    table: IfKernelTableView,
    now: SystemTime,
) -> bool {
    let links = table.links;
    &&& forall|j: int|
        0 <= j < links.len() ==> {
            &&& post.ifindex_lookup((#[trigger] links[j]).ifindex) is Some
            &&& stands(pre, post@, table, now, j, post.ifindex_lookup(links[j].ifindex)->0)
        }
    &&& forall|k: IfKey| #[trigger] post@.contains_key(k) ==> index_listed(links, post@[k].ifindex)
    &&& forall|k: IfKey| #[trigger]
        pre@.contains_key(k) && unclaimed(pre@[k], links, links.len() as int)
            ==> !post@.contains_key(k)
}

/// The state of a pass after the first `touched.len()` rows have been
/// stored, the row `i` under handle `touched[i]`: those rows stand in the
/// arena, and what else is in the arena are the interfaces of `pre` that no
/// row so far has claimed, as they were.
spec fn absorbed(
    pre: IfStore,
    cur: IfStore,
    table: IfKernelTableView,
    now: SystemTime,
    touched: Seq<IfKey>,
) -> bool {
    let links = table.links;
    &&& touched.len() <= links.len()
    &&& forall|i: int|
        0 <= i < touched.len() ==> stands(pre, cur@, table, now, i, #[trigger] touched[i])
    &&& forall|k: IfKey| #[trigger]
        cur@.contains_key(k) && !touched.contains(k) ==> {
            &&& pre@.contains_key(k)
            &&& cur@[k] == pre@[k]
            &&& unclaimed(pre@[k], links, touched.len() as int)
        }
    &&& forall|k: IfKey| #[trigger]
        pre@.contains_key(k) && unclaimed(pre@[k], links, touched.len() as int) ==> {
            &&& cur@.contains_key(k)
            &&& cur@[k] == pre@[k]
            &&& !touched.contains(k)
        }
}

/// Storing one interface makes the arena grow by one at most.
proof fn lemma_upserted_len(cur: IfStore, seen: InterfaceView, r: IfKey)
    requires
        cur.wf(),
    ensures
        cur.upserted(seen, r).dom().finite(),
        cur.upserted(seen, r).len() <= cur@.len() + 1,
{
    match cur.matching(seen) {
        Some(h) => {
            let rest = match cur.displaced(seen) {
                Some(d) => cur@.remove(d),
                None => cur@,
            };
            assert(rest.contains_key(h));
            assert(rest.insert(h, cur@[h].refreshed(seen)).dom() =~= rest.dom());
        },
        None => {},
    }
}

/// What the stores of a pass have for the next row is what the pass keeps
/// for it: the row matches, in the store as it stands, the interface of
/// `pre` that it refreshes, and matches nothing where it refreshes none.
proof fn lemma_match_is_kept(
    pre: IfStore,
    cur: IfStore,
    table: IfKernelTableView,
    now: SystemTime,
    touched: Seq<IfKey>,
    seen: InterfaceView,
)
    requires
        pre.wf(),
        cur.wf(),
        table_valid(table.links),
        touched.len() < table.links.len(),
        absorbed(pre, cur, table, now, touched),
        seen.ifindex == table.links[touched.len() as int].ifindex,
        seen.name == table.links[touched.len() as int].name,
    ensures
        cur.matching(seen) == kept(pre, table.links, touched.len() as int),
        cur.matching(seen) matches Some(h) ==> !touched.contains(h) && cur@[h] == pre@[h],
        cur.displaced(seen) matches Some(d) ==> !touched.contains(d),
{
    let links = table.links;
    let j = touched.len() as int;
    let link = links[j];
    // No row stored so far has the kernel index or the name of row `j`.
    assert forall|i: int| 0 <= i < j implies cur@[#[trigger] touched[i]].ifindex != link.ifindex
        && cur@[touched[i]].name != link.name by {
        assert(stands(pre, cur@, table, now, i, touched[i]));
        assert(links[i].ifindex != links[j].ifindex && links[i].name != links[j].name);
    }
    assert forall|h: IfKey|
        cur@.contains_key(h) && (cur@[h].ifindex == link.ifindex || cur@[h].name
            == link.name) implies !touched.contains(h) by {
        if touched.contains(h) {
            let i = choose|i: int| 0 <= i < touched.len() && touched[i] == h;
            assert(cur@[touched[i]].ifindex != link.ifindex);
        }
    }
    let by_index = pre.ifindex_lookup(link.ifindex);
    let by_name = pre.name_lookup(link.name);
    if cur.ifindex_lookup(link.ifindex) is Some {
        let h = cur.ifindex_lookup(link.ifindex)->0;
        assert(cur@.contains_key(h) && cur@[h].ifindex == link.ifindex);
        assert(pre@.contains_key(h) && cur@[h] == pre@[h]);
        assert(by_index == Some(h));
    } else {
        if by_index is Some && unclaimed(pre@[by_index->0], links, j) {
            assert(cur@.contains_key(by_index->0));
            assert(cur.ifindex_lookup(cur@[by_index->0].ifindex) == by_index);
        }
        if cur.name_lookup(link.name) is Some {
            let h = cur.name_lookup(link.name)->0;
            assert(cur@.contains_key(h) && cur@[h].name == link.name);
            assert(pre@.contains_key(h) && cur@[h] == pre@[h]);
            assert(by_name == Some(h));
        } else {
            if by_name is Some && unclaimed(pre@[by_name->0], links, j) {
                assert(cur@.contains_key(by_name->0));
                assert(cur.name_lookup(cur@[by_name->0].name) == by_name);
            }
        }
    }
    if cur.displaced(seen) is Some {
        let d = cur.displaced(seen)->0;
        assert(cur@.contains_key(d) && cur@[d].name == link.name);
    }
}

/// One step of a pass: after row `touched.len()` has been stored under `r`,
/// the pass stands one row further.
proof fn lemma_absorb_step(
    pre: IfStore,
    cur: IfStore,
    nxt: IfStore,
    table: IfKernelTableView,
    now: SystemTime,
    touched: Seq<IfKey>,
    seen: InterfaceView,
    r: IfKey,
)
    requires
        pre.wf(),
        cur.wf(),
        nxt.wf(),
        table_valid(table.links),
        touched.len() < table.links.len(),
        absorbed(pre, cur, table, now, touched),
        seen == observation(table.links[touched.len() as int], table.addrs, now, seen.key),
        cur.matching(seen) is Some ==> cur.matching(seen) == Some(r),
        cur.matching(seen) is None ==> !cur@.contains_key(r),
        nxt@ == cur.upserted(seen, r),
    ensures
        absorbed(pre, nxt, table, now, touched.push(r)),
{
    let links = table.links;
    let j = touched.len() as int;
    let link = links[j];
    let after = touched.push(r);
    let d = cur.displaced(seen);
    lemma_match_is_kept(pre, cur, table, now, touched, seen);
    // What the step does to the arena, handle by handle.
    assert(nxt@.contains_key(r));
    assert forall|k: IfKey| k != r && Some(k) != d && cur@.contains_key(k) implies nxt@.contains_key(
        k,
    ) && nxt@[k] == cur@[k] by {}
    assert forall|k: IfKey| nxt@.contains_key(k) && k != r implies cur@.contains_key(k) && nxt@[k]
        == cur@[k] && Some(k) != d by {}
    assert(!touched.contains(r));
    assert forall|k: IfKey| after.contains(k) <==> touched.contains(k) || k == r by {
        if touched.contains(k) {
            let i = choose|i: int| 0 <= i < touched.len() && touched[i] == k;
            assert(after[i] == k);
        }
        if k == r {
            assert(after[j] == r);
        }
    }
    // The rows stored so far, the new one among them, stand in the arena.
    assert(stands(pre, nxt@, table, now, j, r));
    assert forall|i: int| 0 <= i < after.len() implies stands(
        pre,
        nxt@,
        table,
        now,
        i,
        #[trigger] after[i],
    ) by {
        if i < j {
            assert(stands(pre, cur@, table, now, i, touched[i]));
            assert(touched.contains(touched[i]));
        }
    }
    // What else is in the arena is of `pre`, and row `j` has not claimed it.
    assert forall|k: IfKey| #[trigger]
        nxt@.contains_key(k) && !after.contains(k) implies pre@.contains_key(k) && nxt@[k]
        == pre@[k] && unclaimed(pre@[k], links, after.len() as int) by {
        assert(cur@.contains_key(k) && !touched.contains(k));
        assert(unclaimed(pre@[k], links, j));
        if cur@[k].ifindex == link.ifindex {
            assert(cur.ifindex_lookup(link.ifindex) == Some(k));
        }
        if cur@[k].name == link.name {
            assert(cur.name_lookup(link.name) == Some(k));
        }
    }
    assert forall|k: IfKey| #[trigger]
        pre@.contains_key(k) && unclaimed(pre@[k], links, after.len() as int) implies nxt@.contains_key(
        k,
    ) && nxt@[k] == pre@[k] && !after.contains(k) by {
        assert(unclaimed(pre@[k], links, j));
        assert(links[j].ifindex != pre@[k].ifindex && links[j].name != pre@[k].name);
        assert(cur@.contains_key(k) && cur@[k] == pre@[k]);
        if cur.matching(seen) is Some {
            assert(cur@[r].ifindex == link.ifindex || cur@[r].name == link.name);
        }
        if d is Some {
            assert(cur@[d->0].name == link.name);
        }
    }
}

/// `post` is `mid` without the interfaces whose handle is in `before` and
/// not in `touched`.
spec fn swept(
    mid: Map<IfKey, InterfaceView>,
    post: Map<IfKey, InterfaceView>,
    before: Seq<IfKey>,
    touched: Seq<IfKey>,
) -> bool {
    &&& forall|k: IfKey| #[trigger]
        post.contains_key(k) ==> {
            &&& mid.contains_key(k)
            &&& post[k] == mid[k]
            &&& touched.contains(k) || !before.contains(k)
        }
    &&& forall|k: IfKey| #[trigger]
        mid.contains_key(k) && (touched.contains(k) || !before.contains(k)) ==> post.contains_key(
            k,
        )
}

/// The end of a pass: once every row is stored and the interfaces of `pre`
/// that no row has reached are gone, the store is reconciled.
proof fn lemma_reconciled(
    pre: IfStore,
    mid: IfStore,
    post: IfStore,
    table: IfKernelTableView,
    now: SystemTime,
    before: Seq<IfKey>,
    touched: Seq<IfKey>,
)
    requires
        pre.wf(),
        mid.wf(),
        post.wf(),
        table_valid(table.links),
        touched.len() == table.links.len(),
        absorbed(pre, mid, table, now, touched),
        forall|k: IfKey| before.contains(k) <==> pre@.contains_key(k),
        swept(mid@, post@, before, touched),
    ensures
        reconciled(pre, post, table, now),
{
    let links = table.links;
    assert forall|j: int| 0 <= j < links.len() implies post.ifindex_lookup(
        (#[trigger] links[j]).ifindex,
    ) is Some && stands(pre, post@, table, now, j, post.ifindex_lookup(links[j].ifindex)->0) by {
        assert(stands(pre, mid@, table, now, j, touched[j]));
        assert(touched.contains(touched[j]));
        assert(post@.contains_key(touched[j]));
        assert(post.ifindex_lookup(post@[touched[j]].ifindex) == Some(touched[j]));
    }
    assert forall|k: IfKey| #[trigger] post@.contains_key(k) implies index_listed(
        links,
        post@[k].ifindex,
    ) by {
        assert(mid@.contains_key(k));
        if !touched.contains(k) {
            assert(pre@.contains_key(k));
            assert(before.contains(k));
        }
        let i = choose|i: int| 0 <= i < touched.len() && touched[i] == k;
        assert(stands(pre, mid@, table, now, i, touched[i]));
        assert(links[i].ifindex == post@[k].ifindex);
    }
}

/// Whether `k` is among `keys`.
fn holds(keys: &Vec<IfKey>, k: IfKey) -> (r: bool)
    ensures
        r == keys@.contains(k),
{
    let mut i: usize = 0;
    while i < keys.len()
        invariant
            i <= keys.len(),
            forall|a: int| 0 <= a < i ==> keys@[a] != k,
        decreases keys.len() - i,
    {
        if keys[i] == k {
            return true;
        }
        i = i + 1;
    }
    false
}

/// Stores every row of the table, in the table's order, and returns the
/// handles under which the rows now stand.
fn absorb(store: &mut IfStore, table: &IfKernelTable, now: SystemTime) -> (touched: Vec<IfKey>)
    requires
        old(store).wf(),
        table_valid(table@.links),
        old(store)@.len() + table.links.len() < ARENA_LIMIT,
    ensures
        final(store).wf(),
        touched@.len() == table.links.len(),
        absorbed(*old(store), *final(store), table@, now, touched@),
{
    let ghost pre = *store;
    let mut touched: Vec<IfKey> = Vec::new();
    let mut j: usize = 0;
    while j < table.links.len()
        invariant
            j == touched.len(),
            j <= table.links.len(),
            pre.wf(),
            store.wf(),
            table_valid(table@.links),
            pre@.len() + table.links.len() < ARENA_LIMIT,
            store@.len() <= pre@.len() + j,
            absorbed(pre, *store, table@, now, touched@),
        decreases table.links.len() - j,
    {
        let seen = observe(&table.links[j], &table.addrs, now);
        let ghost cur = *store;
        let r = store.insert(seen);
        proof {
            assert(table@.links[j as int] == table.links@[j as int]@);
            lemma_upserted_len(cur, seen@, r);
            lemma_absorb_step(pre, cur, *store, table@, now, touched@, seen@, r);
        }
        touched.push(r);
        j = j + 1;
    }
    touched
}

/// Takes out every interface whose handle is in `before` and not in
/// `touched`.
fn sweep(store: &mut IfStore, before: &Vec<IfKey>, touched: &Vec<IfKey>)
    requires
        old(store).wf(),
    ensures
        final(store).wf(),
        swept(old(store)@, final(store)@, before@, touched@),
{
    let ghost mid = *store;
    let mut i: usize = 0;
    while i < before.len()
        invariant
            i <= before.len(),
            store.wf(),
            swept(mid@, store@, before@.take(i as int), touched@),
        decreases before.len() - i,
    {
        let k = before[i];
        if !holds(touched, k) {
            store.remove(k);
        }
        proof {
            let shorter = before@.take(i as int);
            let longer = before@.take(i + 1);
            assert(longer =~= shorter.push(k));
            assert forall|x: IfKey| longer.contains(x) <==> shorter.contains(x) || x == k by {
                if shorter.contains(x) {
                    let a = choose|a: int| 0 <= a < shorter.len() && shorter[a] == x;
                    assert(longer[a] == x);
                }
                if x == k {
                    assert(longer[i as int] == k);
                }
            }
        }
        i = i + 1;
    }
    assert(before@.take(i as int) =~= before@);
}

/// Makes the store reflect `table`, observed at `now`.
///
/// The table must not repeat a kernel index or a name, and the interfaces
/// of the store and the rows of the table together must stay under the
/// arena's limit.
pub(crate) fn reconcile(store: &mut IfStore, table: &IfKernelTable, now: SystemTime)
    requires
        old(store).wf(),
        table_valid(table@.links),
        old(store)@.len() + table.links.len() < ARENA_LIMIT,
    ensures
        final(store).wf(),
        reconciled(*old(store), *final(store), table@, now),
{
    let ghost pre = *store;
    let before = store.keys();
    let touched = absorb(store, table, now);
    let ghost mid = *store;
    sweep(store, &before, &touched);
    proof {
        lemma_reconciled(pre, mid, *store, table@, now, before@, touched@);
    }
}

/// Synchronizing twice with the same kernel table gives every interface
/// the same handle both times. After the second pass the store holds the
/// handles that it held after the first, and each interface is as it was but
/// for the time of its last observation.
pub proof fn law_identity_stable(
    s0: IfStore,
    s1: IfStore,
    s2: IfStore,
    table: IfKernelTable,
    t1: SystemTime,
    t2: SystemTime,
)
    requires
        s0.wf(),
        s1.wf(),
        s2.wf(),
        sync_outcome(s0, Ok(table), t1, s1, Ok(())),
        sync_outcome(s1, Ok(table), t2, s2, Ok(())),
    ensures
        forall|j: int|
            0 <= j < table@.links.len() ==> {
                let link = #[trigger] table@.links[j];
                &&& s1.ifindex_lookup(link.ifindex) is Some
                &&& s2.ifindex_lookup(link.ifindex) == s1.ifindex_lookup(link.ifindex)
                &&& s2.name_lookup(link.name) == s1.ifindex_lookup(link.ifindex)
                &&& s1.name_lookup(link.name) == s1.ifindex_lookup(link.ifindex)
            },
        s2@.dom() == s1@.dom(),
        forall|k: IfKey| #[trigger] s1@.contains_key(k) ==> s2@[k] == s1@[k].observed_at(t2),
{
    let links = table@.links;
    assert(table_valid(links));
    assert(reconciled(s0, s1, table@, t1));
    assert(reconciled(s1, s2, table@, t2));
    assert forall|j: int| 0 <= j < links.len() implies {
        let link = #[trigger] links[j];
        &&& s1.ifindex_lookup(link.ifindex) is Some
        &&& s2.ifindex_lookup(link.ifindex) == s1.ifindex_lookup(link.ifindex)
        &&& s2.name_lookup(link.name) == s1.ifindex_lookup(link.ifindex)
        &&& s1.name_lookup(link.name) == s1.ifindex_lookup(link.ifindex)
        &&& s2@[s1.ifindex_lookup(link.ifindex)->0] == s1@[s1.ifindex_lookup(
            link.ifindex,
        )->0].observed_at(t2)
    } by {
        let link = links[j];
        let k = s1.ifindex_lookup(link.ifindex)->0;
        assert(stands(s0, s1@, table@, t1, j, k));
        assert(s1@[k].name == link.name && s1@[k].ifindex == link.ifindex);
        assert(unclaimed(s1@[k], links, j));
        assert(kept(s1, links, j) == Some(k));
        let k2 = s2.ifindex_lookup(link.ifindex)->0;
        assert(stands(s1, s2@, table@, t2, j, k2));
        assert(s2@[k].name == link.name);
    }
    assert forall|k: IfKey| s1@.contains_key(k) implies s2@.contains_key(k) && s2@[k]
        == s1@[k].observed_at(t2) by {
        assert(index_listed(links, s1@[k].ifindex));
        let j = choose|j: int| 0 <= j < links.len() && (#[trigger] links[j]).ifindex
            == s1@[k].ifindex;
        assert(s1.ifindex_lookup(links[j].ifindex) == Some(k));
    }
    assert forall|k: IfKey| s2@.contains_key(k) implies s1@.contains_key(k) by {
        assert(index_listed(links, s2@[k].ifindex));
        let j = choose|j: int| 0 <= j < links.len() && (#[trigger] links[j]).ifindex
            == s2@[k].ifindex;
        assert(s2.ifindex_lookup(links[j].ifindex) == Some(k));
    }
    assert(s2@.dom() =~= s1@.dom());
}

/// An interface that the kernel no longer reports is gone after the pass:
/// where no row of the table has its kernel index or its name, its handle is
/// not live, and neither index gives that handle for any name or kernel
/// index.
pub proof fn law_disappeared_is_gone(
    pre: IfStore,
    post: IfStore,
    table: IfKernelTableView,
    now: SystemTime,
    k: IfKey,
)
    requires
        post.wf(),
        reconciled(pre, post, table, now),
        pre@.contains_key(k),
        unclaimed(pre@[k], table.links, table.links.len() as int),
    ensures
        !post@.contains_key(k),
        forall|name: Seq<char>| post.name_lookup(name) != Some(k),
        forall|ifindex: i32| post.ifindex_lookup(ifindex) != Some(k),
{
}

} // verus!
