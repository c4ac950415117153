//! The control manager: the store together with the rules by which it
//! follows the kernel.

use crate::arena::ARENA_LIMIT;
use crate::common::{
    IfAddrSet, IfAddrSetView, IfHardwareSet, IfHardwareSetView, IfHardwareType, IfIndex,
    IfLinkSet, IfLinkType, IfName, IfRoleType, Interface, InterfaceView,
};
use crate::key::IfKey;
use crate::reconcile::{reconcile, reconciled};
use crate::store::IfStore;
use ipnet::{Ipv4Net, Ipv6Net};
use std::time::SystemTime;
use vstd::prelude::*;

verus! {

/// `std::io::Error`, carried through unread.
#[verifier::external_type_specification]
#[verifier::external_body]
pub struct ExIoError(std::io::Error);

/// `nix::errno::Errno`, the operating system's error number, carried through
/// unread. `nix::Error` is another name for it.
#[verifier::external_type_specification]
#[verifier::external_body]
pub struct ExErrno(nix::errno::Errno);

/// Why an operation of the manager failed.
#[derive(Debug)]
pub enum IfControlError {
    /// The management session could not complete a request.
    Netlink(String),
    /// I/O failed while the session was set up or used.
    Io(std::io::Error),
    /// A lookup found no live interface.
    NotFound(String),
    /// A parameter was malformed or made no sense.
    Invalid(String),
    /// A call into the operating system failed.
    Nix(nix::Error),
}

/// Message of the error for a handle under which the store holds nothing.
pub const NO_SUCH_HANDLE: &'static str = "no interface under this handle";

/// Message of the error for a kernel index that another interface holds.
pub const INDEX_IN_USE: &'static str = "interface index is in use";

/// Message of the error for a kernel table that repeats a kernel index or a
/// name.
pub const TABLE_REPEATS: &'static str = "kernel table repeats an index or a name";

/// Message of the error for a kernel table that the arena has no room for.
pub const TABLE_TOO_LARGE: &'static str = "kernel table is too large for the store";

/// One assigned address: an IPv4 or an IPv6 prefix.
#[derive(Clone, Copy, Debug, PartialEq, Eq)]
pub enum IfAddr {
    V4(Ipv4Net),
    V6(Ipv6Net),
}

/// One row of the kernel's address table: an address and the kernel index of
/// the interface that it is assigned to.
#[derive(Clone, Copy, Debug, PartialEq, Eq)]
pub struct IfAddrRecord {
    pub ifindex: i32,
    pub addr: IfAddr,
}

/// One row of the kernel's interface table, decoded.
#[derive(Debug, PartialEq, Eq)]
pub struct IfLinkRecord {
    pub ifindex: i32,
    pub name: String,
    pub hw_type: IfHardwareType,
    /// Kind of the virtual device; `None` for an interface backed by a
    /// device.
    pub kind: Option<IfLinkType>,
    pub hw_set: IfHardwareSet,
    pub link_set: IfLinkSet,
    pub up: bool,
}

/// An `IfLinkRecord` as a mathematical value.
pub struct IfLinkRecordView {
    pub ifindex: i32,
    pub name: Seq<char>,
    pub hw_type: IfHardwareType,
    pub kind: Option<IfLinkType>,
    pub hw_set: IfHardwareSetView,
    pub link_set: IfLinkSet,
    pub up: bool,
}

impl View for IfLinkRecord {
    type V = IfLinkRecordView;

    open spec fn view(&self) -> IfLinkRecordView {
        IfLinkRecordView {
            ifindex: self.ifindex,
            name: self.name@,
            hw_type: self.hw_type,
            kind: self.kind,
            hw_set: self.hw_set@,
            link_set: self.link_set,
            up: self.up,
        }
    }
}

/// What the kernel reports in one fetch: its interface table and its address
/// table.
#[derive(Debug, PartialEq, Eq)]
pub struct IfKernelTable {
    pub links: Vec<IfLinkRecord>,
    pub addrs: Vec<IfAddrRecord>,
}

/// An `IfKernelTable` as a mathematical value.
pub struct IfKernelTableView {
    pub links: Seq<IfLinkRecordView>,
    pub addrs: Seq<IfAddrRecord>,
}

impl View for IfKernelTable {
    type V = IfKernelTableView;

    open spec fn view(&self) -> IfKernelTableView {
        IfKernelTableView {
            links: self.links@.map_values(|l: IfLinkRecord| l@),
            addrs: self.addrs@,
        }
    }
}

/// The IPv4 prefixes that `rows` assign to the interface with kernel index
/// `ifindex`, in the order of the rows.
pub open spec fn addrs_v4(rows: Seq<IfAddrRecord>, ifindex: i32) -> Seq<Ipv4Net>
    decreases rows.len(),
{
    if rows.len() == 0 {
        Seq::empty()
    } else {
        let rest = addrs_v4(rows.drop_last(), ifindex);
        match rows.last().addr {
            IfAddr::V4(a) => if rows.last().ifindex == ifindex {
                rest.push(a)
            } else {
                rest
            },
            IfAddr::V6(_) => rest,
        }
    }
}

/// The IPv6 prefixes that `rows` assign to the interface with kernel index
/// `ifindex`, in the order of the rows.
pub open spec fn addrs_v6(rows: Seq<IfAddrRecord>, ifindex: i32) -> Seq<Ipv6Net>
    decreases rows.len(),
{
    if rows.len() == 0 {
        Seq::empty()
    } else {
        let rest = addrs_v6(rows.drop_last(), ifindex);
        match rows.last().addr {
            IfAddr::V6(a) => if rows.last().ifindex == ifindex {
                rest.push(a)
            } else {
                rest
            },
            IfAddr::V4(_) => rest,
        }
    }
}

/// The role that a table row gives its interface: `Virtual` exactly where
/// the row names a device kind.
pub open spec fn role_of(link: IfLinkRecordView) -> IfRoleType {
    if link.kind is Some {
        IfRoleType::Virtual
    } else {
        IfRoleType::Physical
    }
}

/// The interface that a table row describes, observed at `now` and standing
/// under `key`: the row's own fields, the role that the row gives, the
/// addresses that the address table assigns to the row's kernel index, and
/// the hardware address of the row's hardware state.
pub open spec fn observation(
    link: IfLinkRecordView,
    addrs: Seq<IfAddrRecord>,
    now: SystemTime,
    key: IfKey,
) -> InterfaceView {
    InterfaceView {
        key,
        name: link.name,
        ifindex: link.ifindex,
        role: role_of(link),
        hw_type: link.hw_type,
        link_type: match link.kind {
            Some(kind) => kind,
            None => IfLinkType::Generic,
        },
        addr: IfAddrSetView {
            ipv4: addrs_v4(addrs, link.ifindex),
            ipv6: addrs_v6(addrs, link.ifindex),
            mac_addr: link.hw_set.mac_addr,
        },
        hw_set: link.hw_set,
        link_set: link.link_set,
        last_check: now,
        up: link.up,
    }
}

/// No two rows of the interface table share a kernel index or a name.
pub open spec fn table_valid(links: Seq<IfLinkRecordView>) -> bool {
    forall|i: int, j: int|
        0 <= i < j < links.len() ==> {
            &&& (#[trigger] links[i]).ifindex != (#[trigger] links[j]).ifindex
            &&& links[i].name != links[j].name
        }
}

/// Whether no two rows of the interface table share a kernel index or a
/// name.
pub fn check_table(links: &Vec<IfLinkRecord>) -> (ok: bool)
    ensures
        ok == table_valid(links@.map_values(|l: IfLinkRecord| l@)),
{
    let ghost rows = links@.map_values(|l: IfLinkRecord| l@);
    let mut j: usize = 0;
    while j < links.len()
        invariant
            j <= links.len(),
            rows == links@.map_values(|l: IfLinkRecord| l@),
            forall|a: int, b: int|
                0 <= a < b < j ==> {
                    &&& (#[trigger] rows[a]).ifindex != (#[trigger] rows[b]).ifindex
                    &&& rows[a].name != rows[b].name
                },
        decreases links.len() - j,
    {
        let mut i: usize = 0;
        while i < j
            invariant
                i <= j < links.len(),
                rows == links@.map_values(|l: IfLinkRecord| l@),
                forall|a: int|
                    0 <= a < i ==> {
                        &&& (#[trigger] rows[a]).ifindex != rows[j as int].ifindex
                        &&& rows[a].name != rows[j as int].name
                    },
            decreases j - i,
        {
            if links[i].ifindex == links[j].ifindex || links[i].name == links[j].name {
                assert(rows[i as int] == links@[i as int]@);
                assert(rows[j as int] == links@[j as int]@);
                return false;
            }
            assert(rows[i as int] == links@[i as int]@);
            assert(rows[j as int] == links@[j as int]@);
            i = i + 1;
        }
        j = j + 1;
    }
    true
}

/// The addresses that `rows` assign to the interface with kernel index
/// `ifindex`, with `mac_addr` as the hardware address.
pub fn collect_addrs(rows: &Vec<IfAddrRecord>, ifindex: i32, mac_addr: Option<[u8; 6]>) -> (r:
    IfAddrSet)
    ensures
        r@.ipv4 == addrs_v4(rows@, ifindex),
        r@.ipv6 == addrs_v6(rows@, ifindex),
        r@.mac_addr == mac_addr,
{
    let mut ipv4: Vec<Ipv4Net> = Vec::new();
    let mut ipv6: Vec<Ipv6Net> = Vec::new();
    let mut i: usize = 0;
    while i < rows.len()
        invariant
            i <= rows.len(),
            ipv4@ == addrs_v4(rows@.take(i as int), ifindex),
            ipv6@ == addrs_v6(rows@.take(i as int), ifindex),
        decreases rows.len() - i,
    {
        assert(rows@.take(i + 1).drop_last() =~= rows@.take(i as int));
        let row = rows[i];
        if row.ifindex == ifindex {
            match row.addr {
                IfAddr::V4(a) => {
                    ipv4.push(a);
                },
                IfAddr::V6(a) => {
                    ipv6.push(a);
                },
            }
        }
        i = i + 1;
    }
    assert(rows@.take(i as int) =~= rows@);
    IfAddrSet { ipv4, ipv6, mac_addr }
}

/// The interface that the table row `link` describes, observed at `now`.
/// It carries the null handle: the store gives it its own.
pub fn observe(link: &IfLinkRecord, addrs: &Vec<IfAddrRecord>, now: SystemTime) -> (r: Interface)
    ensures
        r@ == observation(link@, addrs@, now, r@.key),
{
    let (role, link_type) = match link.kind {
        Some(kind) => (IfRoleType::Virtual, kind),
        None => (IfRoleType::Physical, IfLinkType::Generic),
    };
    Interface {
        key: IfKey::null(),
        name: IfName(link.name.clone()),
        ifindex: IfIndex(link.ifindex),
        role,
        hw_type: link.hw_type,
        link_type,
        addr: collect_addrs(addrs, link.ifindex, link.hw_set.mac_addr),
        hw_set: link.hw_set.clone(),
        link_set: link.link_set,
        last_check: now,
        up: link.up,
    }
}

impl IfControlError {
    /// How the message of an error of this kind begins.
    pub open spec fn prefix(&self) -> Seq<char> {
        match self {
            IfControlError::Netlink(_) => "Netlink Error: "@,
            IfControlError::Io(_) => "I/O Error: "@,
            IfControlError::NotFound(_) => "Not Found Error: "@,
            IfControlError::Invalid(_) => "Invalid Parameter: "@,
            IfControlError::Nix(_) => "NIX Crate Error: "@,
        }
    }

    /// The text that an error carries, for the three kinds that carry one.
    pub open spec fn text(&self) -> Option<Seq<char>> {
        match self {
            IfControlError::Netlink(m) => Some(m@),
            IfControlError::NotFound(m) => Some(m@),
            IfControlError::Invalid(m) => Some(m@),
            _ => None,
        }
    }

    /// The error as a line of text: the kind's prefix, then the detail. For
    /// the three kinds that carry a text, the detail is that text; for the
    /// two that carry an error of the operating system, it is that error's
    /// own description.
    pub fn message(&self) -> (r: String)
        ensures
            r@.len() >= self.prefix().len(),
            r@.take(self.prefix().len() as int) == self.prefix(),
            self.text() is Some ==> r@ == self.prefix() + self.text()->0,
    {
        match self {
            IfControlError::Netlink(m) => "Netlink Error: ".to_owned().concat(m.as_str()),
            IfControlError::Io(e) => {
                let detail = e.to_string();
                "I/O Error: ".to_owned().concat(detail.as_str())
            },
            IfControlError::NotFound(m) => "Not Found Error: ".to_owned().concat(m.as_str()),
            IfControlError::Invalid(m) => "Invalid Parameter: ".to_owned().concat(m.as_str()),
            IfControlError::Nix(e) => {
                let detail = e.to_string();
                "NIX Crate Error: ".to_owned().concat(detail.as_str())
            },
        }
    }
}

/// The control manager: sole owner and sole writer of the store.
pub struct IfControlMgr {
    pub store: IfStore,
}

/// How a synchronization with what was `fetched` from the kernel ends: the
/// store `post` that it leaves of the store `pre`, and the result `r` that
/// it returns.
///
/// - A failed fetch is handed back as it came, and the store is as it was.
/// - So is the store where the table repeats a kernel index or a name, or
///   where store and table together pass the arena's limit; the result is
///   then `Invalid`.
/// - Otherwise the result is `Ok` and the store is reconciled with the table.
pub open spec fn sync_outcome(
    pre: IfStore,
    fetched: Result<IfKernelTable, IfControlError>,
    now: SystemTime,
    post: IfStore,
    r: Result<(), IfControlError>,
) -> bool {
    match fetched {
        Err(e) => r == Err::<(), IfControlError>(e) && post == pre,
        Ok(table) => if !table_valid(table@.links) {
            &&& r matches Err(IfControlError::Invalid(m))
            &&& m@ == TABLE_REPEATS@
            &&& post == pre
        } else if pre@.len() + table@.links.len() >= ARENA_LIMIT {
            &&& r matches Err(IfControlError::Invalid(m))
            &&& m@ == TABLE_TOO_LARGE@
            &&& post == pre
        } else {
            &&& r is Ok
            &&& reconciled(pre, post, table@, now)
        },
    }
}

impl IfControlMgr {
    /// A manager whose store holds nothing. It does not synchronize.
    pub fn new() -> (m: Self)
        ensures
            m.store.wf(),
            m.store@ == Map::<IfKey, InterfaceView>::empty(),
    {
        IfControlMgr { store: IfStore::new() }
    }

    /// Synchronizes the store with what was fetched from the kernel at
    /// `now`: all of it, or nothing.
    pub fn sync(&mut self, fetched: Result<IfKernelTable, IfControlError>, now: SystemTime) -> (r:
        Result<(), IfControlError>)
        requires
            old(self).store.wf(),
        ensures
            final(self).store.wf(),
            sync_outcome(old(self).store, fetched, now, final(self).store, r),
    {
        let table = match fetched {
            Ok(table) => table,
            Err(e) => {
                return Err(e);
            },
        };
        if !check_table(&table.links) {
            return Err(IfControlError::Invalid(TABLE_REPEATS.to_owned()));
        }
        let held = self.store.len();
        if held >= ARENA_LIMIT || table.links.len() >= ARENA_LIMIT - held {
            return Err(IfControlError::Invalid(TABLE_TOO_LARGE.to_owned()));
        }
        reconcile(&mut self.store, &table, now);
        Ok(())
    }

    /// The handle of the interface named `name`. It reads the store as it
    /// stands and fails with `NotFound`, carrying the name, where no live
    /// interface has that name.
    pub fn id_with_name(&self, name: &str) -> (r: Result<IfKey, IfControlError>)
        ensures
            match self.store.name_lookup(name@) {
                Some(k) => r == Ok::<IfKey, IfControlError>(k),
                None => r matches Err(IfControlError::NotFound(m)) && m@ == name@,
            },
    {
        match self.store.id_with_name(name) {
            Some(k) => Ok(k),
            None => Err(IfControlError::NotFound(name.to_owned())),
        }
    }

    /// A copy of the interface under handle `key`. It reads the store as it
    /// stands and fails with `NotFound` where `key` is not live.
    pub fn ifp(&self, key: IfKey) -> (r: Result<Interface, IfControlError>)
        ensures
            match r {
                Ok(ifp) => self.store@.contains_key(key) && ifp@ == self.store@[key],
                Err(IfControlError::NotFound(m)) => {
                    &&& !self.store@.contains_key(key)
                    &&& m@ == NO_SUCH_HANDLE@
                },
                Err(_) => false,
            },
    {
        match self.store.get(key) {
            Some(entry) => Ok(entry.clone()),
            None => Err(IfControlError::NotFound(NO_SUCH_HANDLE.to_owned())),
        }
    }
}

} // verus!
