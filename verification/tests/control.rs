use interface::common::{
    IfHardwareFlags, IfHardwareSet, IfHardwareType, IfIndex, IfLinkFlags, IfLinkSet, IfLinkType,
    IfRoleType,
};
use interface::control::{
    check_table, collect_addrs, observe, IfAddr, IfAddrRecord, IfControlError, IfControlMgr,
    IfKernelTable, IfLinkRecord, NO_SUCH_HANDLE, TABLE_REPEATS,
};
use interface::key::IfKey;
use std::time::{Duration, SystemTime};

fn ctl_link(ifindex: i32, name: &str, kind: Option<IfLinkType>) -> IfLinkRecord {
    IfLinkRecord {
        ifindex,
        name: name.to_string(),
        hw_type: IfHardwareType::Ether,
        kind,
        hw_set: IfHardwareSet::new(
            IfHardwareFlags::empty(),
            None,
            vec![],
            None,
            None,
            Some(1500),
            None,
            None,
            Some([2, 0, 0, 0, 0, ifindex as u8]),
        ),
        link_set: IfLinkSet { flags: IfLinkFlags::from_bits_truncate(IfLinkFlags::ARP), keepalive: None },
        up: true,
    }
}

fn ctl_v4(ifindex: i32, text: &str) -> IfAddrRecord {
    IfAddrRecord { ifindex, addr: IfAddr::V4(text.parse().unwrap()) }
}

fn ctl_v6(ifindex: i32, text: &str) -> IfAddrRecord {
    IfAddrRecord { ifindex, addr: IfAddr::V6(text.parse().unwrap()) }
}

fn ctl_table(links: Vec<IfLinkRecord>, addrs: Vec<IfAddrRecord>) -> IfKernelTable {
    IfKernelTable { links, addrs }
}

fn ctl_at(secs: u64) -> SystemTime {
    SystemTime::UNIX_EPOCH + Duration::from_secs(secs)
}

fn ctl_two_links() -> IfKernelTable {
    ctl_table(
        vec![ctl_link(1, "lo", None), ctl_link(2, "eth0", None)],
        vec![
            ctl_v4(1, "127.0.0.1/8"),
            ctl_v4(2, "192.0.2.10/24"),
            ctl_v6(1, "::1/128"),
            ctl_v4(2, "198.51.100.7/32"),
            ctl_v6(2, "2001:db8::2/64"),
        ],
    )
}

#[test]
fn new_manager_knows_nothing() {
    let mgr = IfControlMgr::new();
    assert_eq!(mgr.store.len(), 0);
    match mgr.id_with_name("lo") {
        Err(IfControlError::NotFound(m)) => assert_eq!(m, "lo"),
        other => panic!("expected NotFound, got {:?}", other),
    }
}

#[test]
fn sync_stores_every_row_with_its_addresses() {
    let mut mgr = IfControlMgr::new();
    mgr.sync(Ok(ctl_two_links()), ctl_at(100)).expect("table is sound");
    assert_eq!(mgr.store.len(), 2);
    let lo = mgr.id_with_name("lo").unwrap();
    let eth0 = mgr.id_with_name("eth0").unwrap();
    assert_ne!(lo, eth0);
    assert_eq!(mgr.store.id_with_ifindex(1), Some(lo));
    assert_eq!(mgr.store.id_with_ifindex(2), Some(eth0));
    let seen = mgr.ifp(eth0).unwrap();
    assert_eq!(seen.key, eth0);
    assert_eq!(seen.name.0, "eth0");
    assert_eq!(seen.ifindex, IfIndex(2));
    assert_eq!(seen.role, IfRoleType::Physical);
    assert_eq!(seen.hw_type, IfHardwareType::Ether);
    assert_eq!(seen.link_type, IfLinkType::Generic);
    assert_eq!(
        seen.addr.ipv4,
        vec!["192.0.2.10/24".parse().unwrap(), "198.51.100.7/32".parse().unwrap()]
    );
    assert_eq!(seen.addr.ipv6, vec!["2001:db8::2/64".parse().unwrap()]);
    assert_eq!(seen.addr.mac_addr, Some([2, 0, 0, 0, 0, 2]));
    assert_eq!(seen.hw_set, ctl_link(2, "eth0", None).hw_set);
    assert_eq!(seen.link_set, ctl_link(2, "eth0", None).link_set);
    assert_eq!(seen.last_check, ctl_at(100));
    assert!(seen.up);
    let seen_lo = mgr.ifp(lo).unwrap();
    assert_eq!(seen_lo.addr.ipv4, vec!["127.0.0.1/8".parse().unwrap()]);
    assert_eq!(seen_lo.addr.ipv6, vec!["::1/128".parse().unwrap()]);
}

#[test]
fn sync_gives_the_role_that_the_kind_tells() {
    let mut mgr = IfControlMgr::new();
    let table = ctl_table(
        vec![ctl_link(1, "eth0", None), ctl_link(2, "br0", Some(IfLinkType::Bridge))],
        vec![],
    );
    mgr.sync(Ok(table), ctl_at(1)).unwrap();
    let eth0 = mgr.ifp(mgr.id_with_name("eth0").unwrap()).unwrap();
    let br0 = mgr.ifp(mgr.id_with_name("br0").unwrap()).unwrap();
    assert_eq!(eth0.role, IfRoleType::Physical);
    assert_eq!(eth0.link_type, IfLinkType::Generic);
    assert_eq!(br0.role, IfRoleType::Virtual);
    assert_eq!(br0.link_type, IfLinkType::Bridge);
}

#[test]
fn sync_twice_with_one_table_keeps_every_handle() {
    let mut mgr = IfControlMgr::new();
    mgr.sync(Ok(ctl_two_links()), ctl_at(100)).unwrap();
    let lo = mgr.id_with_name("lo").unwrap();
    let eth0 = mgr.id_with_name("eth0").unwrap();
    let first = mgr.ifp(eth0).unwrap();
    mgr.sync(Ok(ctl_two_links()), ctl_at(200)).unwrap();
    assert_eq!(mgr.id_with_name("lo").unwrap(), lo);
    assert_eq!(mgr.id_with_name("eth0").unwrap(), eth0);
    assert_eq!(mgr.store.id_with_ifindex(1), Some(lo));
    assert_eq!(mgr.store.id_with_ifindex(2), Some(eth0));
    assert_eq!(mgr.store.len(), 2);
    let second = mgr.ifp(eth0).unwrap();
    assert_eq!(second.last_check, ctl_at(200));
    let mut expected = first;
    expected.last_check = ctl_at(200);
    assert_eq!(second, expected);
}

#[test]
fn sync_drops_what_the_kernel_no_longer_reports() {
    let mut mgr = IfControlMgr::new();
    mgr.sync(Ok(ctl_two_links()), ctl_at(100)).unwrap();
    let lo = mgr.id_with_name("lo").unwrap();
    let eth0 = mgr.id_with_name("eth0").unwrap();
    mgr.sync(Ok(ctl_table(vec![ctl_link(1, "lo", None)], vec![])), ctl_at(200)).unwrap();
    assert_eq!(mgr.store.len(), 1);
    assert_eq!(mgr.id_with_name("lo").unwrap(), lo);
    assert!(matches!(mgr.id_with_name("eth0"), Err(IfControlError::NotFound(_))));
    assert_eq!(mgr.store.id_with_ifindex(2), None);
    match mgr.ifp(eth0) {
        Err(IfControlError::NotFound(m)) => assert_eq!(m, NO_SUCH_HANDLE),
        other => panic!("expected NotFound, got {:?}", other),
    }
    assert!(mgr.ifp(lo).unwrap().addr.ipv4.is_empty());
}

#[test]
fn sync_with_an_empty_table_empties_the_store() {
    let mut mgr = IfControlMgr::new();
    mgr.sync(Ok(ctl_two_links()), ctl_at(100)).unwrap();
    mgr.sync(Ok(ctl_table(vec![], vec![])), ctl_at(200)).unwrap();
    assert_eq!(mgr.store.len(), 0);
    assert!(mgr.store.keys().is_empty());
    assert_eq!(mgr.store.id_with_name("lo"), None);
}

#[test]
fn sync_follows_a_rename_under_the_same_handle() {
    let mut mgr = IfControlMgr::new();
    mgr.sync(Ok(ctl_two_links()), ctl_at(100)).unwrap();
    let eth0 = mgr.id_with_name("eth0").unwrap();
    let table = ctl_table(vec![ctl_link(1, "lo", None), ctl_link(2, "wan0", None)], vec![]);
    mgr.sync(Ok(table), ctl_at(200)).unwrap();
    assert_eq!(mgr.id_with_name("wan0").unwrap(), eth0);
    assert!(mgr.id_with_name("eth0").is_err());
    assert_eq!(mgr.ifp(eth0).unwrap().name.0, "wan0");
    assert_eq!(mgr.store.len(), 2);
}

#[test]
fn sync_follows_a_new_index_by_the_name() {
    let mut mgr = IfControlMgr::new();
    mgr.sync(Ok(ctl_two_links()), ctl_at(100)).unwrap();
    let eth0 = mgr.id_with_name("eth0").unwrap();
    let table = ctl_table(vec![ctl_link(1, "lo", None), ctl_link(7, "eth0", None)], vec![]);
    mgr.sync(Ok(table), ctl_at(200)).unwrap();
    assert_eq!(mgr.id_with_name("eth0").unwrap(), eth0);
    assert_eq!(mgr.store.id_with_ifindex(7), Some(eth0));
    assert_eq!(mgr.store.id_with_ifindex(2), None);
    assert_eq!(mgr.ifp(eth0).unwrap().ifindex, IfIndex(7));
}

#[test]
fn sync_of_swapped_names_keeps_the_first_and_renews_the_second() {
    let mut mgr = IfControlMgr::new();
    let table = ctl_table(vec![ctl_link(5, "a", None), ctl_link(6, "b", None)], vec![]);
    mgr.sync(Ok(table), ctl_at(1)).unwrap();
    let first = mgr.id_with_name("a").unwrap();
    let second = mgr.id_with_name("b").unwrap();
    let swapped = ctl_table(vec![ctl_link(5, "b", None), ctl_link(6, "a", None)], vec![]);
    mgr.sync(Ok(swapped), ctl_at(2)).unwrap();
    assert_eq!(mgr.store.len(), 2);
    assert_eq!(mgr.store.id_with_ifindex(5), Some(first));
    assert_eq!(mgr.id_with_name("b").unwrap(), first);
    let renewed = mgr.id_with_name("a").unwrap();
    assert_eq!(mgr.store.id_with_ifindex(6), Some(renewed));
    assert_ne!(renewed, first);
    assert_ne!(renewed, second);
    assert!(mgr.ifp(second).is_err());
    assert_eq!(mgr.ifp(first).unwrap().name.0, "b");
    assert_eq!(mgr.ifp(renewed).unwrap().ifindex, IfIndex(6));
}

#[test]
fn sync_adds_what_the_kernel_newly_reports() {
    let mut mgr = IfControlMgr::new();
    mgr.sync(Ok(ctl_two_links()), ctl_at(100)).unwrap();
    let lo = mgr.id_with_name("lo").unwrap();
    let eth0 = mgr.id_with_name("eth0").unwrap();
    let mut table = ctl_two_links();
    table.links.insert(0, ctl_link(9, "wg0", Some(IfLinkType::WireGuard)));
    table.addrs.push(ctl_v4(9, "10.9.0.1/24"));
    mgr.sync(Ok(table), ctl_at(200)).unwrap();
    assert_eq!(mgr.store.len(), 3);
    assert_eq!(mgr.id_with_name("lo").unwrap(), lo);
    assert_eq!(mgr.id_with_name("eth0").unwrap(), eth0);
    let wg0 = mgr.id_with_name("wg0").unwrap();
    assert_ne!(wg0, lo);
    assert_ne!(wg0, eth0);
    let seen = mgr.ifp(wg0).unwrap();
    assert_eq!(seen.key, wg0);
    assert_eq!(seen.role, IfRoleType::Virtual);
    assert_eq!(seen.link_type, IfLinkType::WireGuard);
    assert_eq!(seen.addr.ipv4, vec!["10.9.0.1/24".parse().unwrap()]);
    assert_eq!(seen.last_check, ctl_at(200));
    assert_eq!(mgr.ifp(lo).unwrap().last_check, ctl_at(200));
}

#[test]
fn sync_keeps_the_role_of_an_interface_it_refreshes() {
    let mut mgr = IfControlMgr::new();
    mgr.sync(Ok(ctl_table(vec![ctl_link(2, "eth0", None)], vec![])), ctl_at(1)).unwrap();
    let eth0 = mgr.id_with_name("eth0").unwrap();
    let table = ctl_table(vec![ctl_link(2, "eth0", Some(IfLinkType::Veth))], vec![]);
    mgr.sync(Ok(table), ctl_at(2)).unwrap();
    let seen = mgr.ifp(eth0).unwrap();
    assert_eq!(seen.role, IfRoleType::Physical);
    assert_eq!(seen.link_type, IfLinkType::Veth);
}

#[test]
fn sync_after_a_failed_fetch_leaves_the_store_as_it_was() {
    let mut mgr = IfControlMgr::new();
    mgr.sync(Ok(ctl_two_links()), ctl_at(100)).unwrap();
    let lo = mgr.id_with_name("lo").unwrap();
    let eth0 = mgr.id_with_name("eth0").unwrap();
    let before_lo = mgr.ifp(lo).unwrap();
    let before_eth0 = mgr.ifp(eth0).unwrap();
    let r = mgr.sync(Err(IfControlError::Netlink("dump interrupted".to_string())), ctl_at(200));
    match r {
        Err(IfControlError::Netlink(m)) => assert_eq!(m, "dump interrupted"),
        other => panic!("expected Netlink, got {:?}", other),
    }
    assert_eq!(mgr.store.len(), 2);
    assert_eq!(mgr.id_with_name("lo").unwrap(), lo);
    assert_eq!(mgr.id_with_name("eth0").unwrap(), eth0);
    assert_eq!(mgr.store.id_with_ifindex(1), Some(lo));
    assert_eq!(mgr.store.id_with_ifindex(2), Some(eth0));
    assert_eq!(mgr.ifp(lo).unwrap(), before_lo);
    assert_eq!(mgr.ifp(eth0).unwrap(), before_eth0);
}

#[test]
fn sync_hands_back_io_and_os_errors_as_they_came() {
    let mut mgr = IfControlMgr::new();
    let io = std::io::Error::new(std::io::ErrorKind::ConnectionReset, "socket closed");
    match mgr.sync(Err(IfControlError::Io(io)), ctl_at(1)) {
        Err(IfControlError::Io(e)) => assert_eq!(e.kind(), std::io::ErrorKind::ConnectionReset),
        other => panic!("expected Io, got {:?}", other),
    }
    match mgr.sync(Err(IfControlError::Nix(nix::Error::EPERM)), ctl_at(1)) {
        Err(IfControlError::Nix(e)) => assert_eq!(e, nix::Error::EPERM),
        other => panic!("expected Nix, got {:?}", other),
    }
    assert_eq!(mgr.store.len(), 0);
}

#[test]
fn sync_refuses_a_table_that_repeats_an_index() {
    let mut mgr = IfControlMgr::new();
    mgr.sync(Ok(ctl_two_links()), ctl_at(100)).unwrap();
    let eth0 = mgr.id_with_name("eth0").unwrap();
    let table = ctl_table(vec![ctl_link(5, "a", None), ctl_link(5, "b", None)], vec![]);
    match mgr.sync(Ok(table), ctl_at(200)) {
        Err(IfControlError::Invalid(m)) => assert_eq!(m, TABLE_REPEATS),
        other => panic!("expected Invalid, got {:?}", other),
    }
    assert_eq!(mgr.store.len(), 2);
    assert_eq!(mgr.id_with_name("eth0").unwrap(), eth0);
    assert_eq!(mgr.ifp(eth0).unwrap().last_check, ctl_at(100));
    assert!(mgr.id_with_name("a").is_err());
}

#[test]
fn sync_refuses_a_table_that_repeats_a_name() {
    let mut mgr = IfControlMgr::new();
    let table = ctl_table(vec![ctl_link(5, "a", None), ctl_link(6, "a", None)], vec![]);
    match mgr.sync(Ok(table), ctl_at(200)) {
        Err(IfControlError::Invalid(m)) => assert_eq!(m, TABLE_REPEATS),
        other => panic!("expected Invalid, got {:?}", other),
    }
    assert_eq!(mgr.store.len(), 0);
}

#[test]
fn check_table_tells_sound_tables_from_repeating_ones() {
    assert!(check_table(&vec![]));
    assert!(check_table(&vec![ctl_link(1, "a", None)]));
    assert!(check_table(&vec![ctl_link(1, "a", None), ctl_link(2, "b", None), ctl_link(3, "c", None)]));
    assert!(!check_table(&vec![ctl_link(1, "a", None), ctl_link(2, "b", None), ctl_link(1, "c", None)]));
    assert!(!check_table(&vec![ctl_link(1, "a", None), ctl_link(2, "b", None), ctl_link(3, "b", None)]));
}

#[test]
fn collect_addrs_picks_the_rows_of_one_interface_in_order() {
    let rows = vec![
        ctl_v4(3, "10.0.0.1/8"),
        ctl_v6(3, "fe80::1/64"),
        ctl_v4(4, "10.0.0.2/8"),
        ctl_v4(3, "10.0.0.3/8"),
        ctl_v6(4, "fe80::2/64"),
    ];
    let set = collect_addrs(&rows, 3, Some([1, 2, 3, 4, 5, 6]));
    assert_eq!(set.ipv4, vec!["10.0.0.1/8".parse().unwrap(), "10.0.0.3/8".parse().unwrap()]);
    assert_eq!(set.ipv6, vec!["fe80::1/64".parse().unwrap()]);
    assert_eq!(set.mac_addr, Some([1, 2, 3, 4, 5, 6]));
    let none = collect_addrs(&rows, 9, None);
    assert!(none.ipv4.is_empty());
    assert!(none.ipv6.is_empty());
    assert_eq!(none.mac_addr, None);
}

#[test]
fn observe_builds_the_interface_of_a_row() {
    let link = ctl_link(4, "dummy0", Some(IfLinkType::Dummy));
    let seen = observe(&link, &vec![ctl_v4(4, "10.1.0.1/16")], ctl_at(9));
    assert!(seen.key.is_null());
    assert_eq!(seen.name.0, "dummy0");
    assert_eq!(seen.ifindex, IfIndex(4));
    assert_eq!(seen.role, IfRoleType::Virtual);
    assert_eq!(seen.link_type, IfLinkType::Dummy);
    assert_eq!(seen.addr.ipv4, vec!["10.1.0.1/16".parse().unwrap()]);
    assert_eq!(seen.addr.mac_addr, Some([2, 0, 0, 0, 0, 4]));
    assert_eq!(seen.last_check, ctl_at(9));
}

#[test]
fn ifp_is_a_copy_that_the_store_does_not_follow() {
    let mut mgr = IfControlMgr::new();
    mgr.sync(Ok(ctl_two_links()), ctl_at(100)).unwrap();
    let eth0 = mgr.id_with_name("eth0").unwrap();
    let mut copy = mgr.ifp(eth0).unwrap();
    copy.name.0.push_str("-changed");
    copy.up = false;
    assert_eq!(mgr.ifp(eth0).unwrap().name.0, "eth0");
    assert!(mgr.ifp(eth0).unwrap().up);
}

#[test]
fn ifp_of_the_null_handle_is_not_found() {
    let mgr = IfControlMgr::new();
    match mgr.ifp(IfKey::null()) {
        Err(IfControlError::NotFound(m)) => assert_eq!(m, NO_SUCH_HANDLE),
        other => panic!("expected NotFound, got {:?}", other),
    }
}

#[test]
fn error_messages_begin_with_the_kind() {
    assert_eq!(IfControlError::Netlink("no answer".to_string()).message(), "Netlink Error: no answer");
    assert_eq!(IfControlError::NotFound("eth7".to_string()).message(), "Not Found Error: eth7");
    assert_eq!(IfControlError::Invalid("bad".to_string()).message(), "Invalid Parameter: bad");
    let io = std::io::Error::new(std::io::ErrorKind::Other, "pipe broke");
    assert_eq!(IfControlError::Io(io).message(), "I/O Error: pipe broke");
    let nix = IfControlError::Nix(nix::Error::ENOENT).message();
    assert_eq!(nix, format!("NIX Crate Error: {}", nix::Error::ENOENT));
    assert!(nix.starts_with("NIX Crate Error: ENOENT"));
}
