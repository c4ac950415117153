use interface::common::{
    IfAddrSet, IfHardwareFlags, IfHardwareSet, IfHardwareType, IfIndex, IfLinkFlags, IfLinkSet,
    IfLinkType, IfName, IfRoleType, Interface,
};
use interface::control::{IfControlError, INDEX_IN_USE, NO_SUCH_HANDLE};
use interface::key::IfKey;
use interface::store::IfStore;
use std::time::{Duration, SystemTime};

fn store_iface(name: &str, ifindex: i32) -> Interface {
    Interface {
        key: IfKey::null(),
        name: IfName(name.to_string()),
        ifindex: IfIndex(ifindex),
        role: IfRoleType::Physical,
        hw_type: IfHardwareType::Ether,
        link_type: IfLinkType::Generic,
        addr: IfAddrSet { ipv4: vec![], ipv6: vec![], mac_addr: None },
        hw_set: IfHardwareSet::new(
            IfHardwareFlags::empty(),
            None,
            vec![],
            None,
            None,
            Some(1500),
            None,
            None,
            None,
        ),
        link_set: IfLinkSet { flags: IfLinkFlags::empty(), keepalive: None },
        last_check: SystemTime::UNIX_EPOCH,
        up: true,
    }
}

/// Every live interface is filed under its own name and index, and both
/// indices hold nothing else.
fn store_is_consistent(store: &IfStore, names: &[&str], indices: &[i32]) {
    let keys = store.keys();
    assert_eq!(keys.len(), store.len());
    for k in &keys {
        let ifp = store.get(*k).expect("listed handle is live");
        assert_eq!(ifp.key, *k);
        assert_eq!(store.id_with_name(&ifp.name.0), Some(*k));
        assert_eq!(store.id_with_ifindex(ifp.ifindex.0), Some(*k));
    }
    for n in names {
        match store.id_with_name(n) {
            Some(k) => assert_eq!(store.get(k).expect("index entry is live").name.0, *n),
            None => assert!(keys.iter().all(|k| store.get(*k).unwrap().name.0 != *n)),
        }
    }
    for i in indices {
        match store.id_with_ifindex(*i) {
            Some(k) => assert_eq!(store.get(k).expect("index entry is live").ifindex.0, *i),
            None => assert!(keys.iter().all(|k| store.get(*k).unwrap().ifindex.0 != *i)),
        }
    }
}

#[test]
fn new_store_is_empty() {
    let store = IfStore::new();
    assert_eq!(store.len(), 0);
    assert!(store.keys().is_empty());
    assert_eq!(store.id_with_name("eth0"), None);
    assert_eq!(store.id_with_ifindex(1), None);
    assert!(store.get(IfKey::null()).is_none());
}

#[test]
fn insert_stores_under_a_fresh_handle() {
    let mut store = IfStore::new();
    let a = store.insert(store_iface("eth0", 2));
    assert!(!a.is_null());
    assert_eq!(store.len(), 1);
    assert_eq!(store.keys(), vec![a]);
    assert_eq!(store.id_with_name("eth0"), Some(a));
    assert_eq!(store.id_with_ifindex(2), Some(a));
    let mut expected = store_iface("eth0", 2);
    expected.key = a;
    assert_eq!(store.get(a), Some(&expected));
}

#[test]
fn insert_gives_distinct_handles_to_distinct_interfaces() {
    let mut store = IfStore::new();
    let a = store.insert(store_iface("eth0", 2));
    let b = store.insert(store_iface("eth1", 3));
    assert_ne!(a, b);
    assert_eq!(store.len(), 2);
    assert_eq!(store.get(a).unwrap().name.0, "eth0");
    assert_eq!(store.get(b).unwrap().name.0, "eth1");
    let keys = store.keys();
    assert_eq!(keys.len(), 2);
    assert!(keys.contains(&a));
    assert!(keys.contains(&b));
}

#[test]
fn insert_with_known_index_refreshes_in_place() {
    let mut store = IfStore::new();
    let a = store.insert(store_iface("eth0", 2));
    let mut seen = store_iface("lan0", 2);
    seen.role = IfRoleType::Virtual;
    seen.link_type = IfLinkType::Bridge;
    seen.up = false;
    seen.last_check = SystemTime::UNIX_EPOCH + Duration::from_secs(60);
    let again = store.insert(seen);
    assert_eq!(again, a);
    assert_eq!(store.len(), 1);
    assert_eq!(store.id_with_name("eth0"), None);
    assert_eq!(store.id_with_name("lan0"), Some(a));
    assert_eq!(store.id_with_ifindex(2), Some(a));
    let got = store.get(a).unwrap();
    assert_eq!(got.key, a);
    assert_eq!(got.name.0, "lan0");
    assert_eq!(got.role, IfRoleType::Physical);
    assert_eq!(got.link_type, IfLinkType::Bridge);
    assert!(!got.up);
    assert_eq!(got.last_check, SystemTime::UNIX_EPOCH + Duration::from_secs(60));
}

#[test]
fn insert_with_known_name_follows_the_new_index() {
    let mut store = IfStore::new();
    let a = store.insert(store_iface("eth0", 2));
    let again = store.insert(store_iface("eth0", 9));
    assert_eq!(again, a);
    assert_eq!(store.len(), 1);
    assert_eq!(store.id_with_ifindex(2), None);
    assert_eq!(store.id_with_ifindex(9), Some(a));
    assert_eq!(store.id_with_name("eth0"), Some(a));
    assert_eq!(store.get(a).unwrap().ifindex, IfIndex(9));
}

#[test]
fn insert_prefers_the_index_and_displaces_the_holder_of_the_name() {
    let mut store = IfStore::new();
    let a = store.insert(store_iface("eth0", 2));
    let b = store.insert(store_iface("eth1", 3));
    let r = store.insert(store_iface("eth1", 2));
    assert_eq!(r, a);
    assert_eq!(store.len(), 1);
    assert!(store.get(b).is_none());
    assert_eq!(store.id_with_name("eth1"), Some(a));
    assert_eq!(store.id_with_name("eth0"), None);
    assert_eq!(store.id_with_ifindex(2), Some(a));
    assert_eq!(store.id_with_ifindex(3), None);
    store_is_consistent(&store, &["eth0", "eth1"], &[2, 3]);
}

#[test]
fn insert_never_reads_the_key_of_what_it_is_given() {
    let mut store = IfStore::new();
    let a = store.insert(store_iface("eth0", 2));
    let mut other = store_iface("eth1", 3);
    other.key = a;
    let b = store.insert(other);
    assert_ne!(a, b);
    assert_eq!(store.get(b).unwrap().key, b);
    assert_eq!(store.get(a).unwrap().name.0, "eth0");
}

#[test]
fn remove_takes_the_entry_out_of_arena_and_indices() {
    let mut store = IfStore::new();
    let a = store.insert(store_iface("eth0", 2));
    let b = store.insert(store_iface("eth1", 3));
    let gone = store.remove(a).expect("a was live");
    assert_eq!(gone.name.0, "eth0");
    assert_eq!(gone.key, a);
    assert!(store.get(a).is_none());
    assert_eq!(store.id_with_name("eth0"), None);
    assert_eq!(store.id_with_ifindex(2), None);
    assert_eq!(store.len(), 1);
    assert_eq!(store.keys(), vec![b]);
    assert_eq!(store.id_with_name("eth1"), Some(b));
    assert_eq!(store.id_with_ifindex(3), Some(b));
}

#[test]
fn remove_of_a_dead_handle_changes_nothing() {
    let mut store = IfStore::new();
    let a = store.insert(store_iface("eth0", 2));
    assert!(store.remove(a).is_some());
    let b = store.insert(store_iface("eth1", 3));
    assert!(store.remove(a).is_none());
    assert!(store.remove(IfKey::null()).is_none());
    assert_eq!(store.len(), 1);
    assert_eq!(store.id_with_name("eth1"), Some(b));
}

#[test]
fn a_recreated_interface_gets_a_handle_of_its_own() {
    let mut store = IfStore::new();
    let a = store.insert(store_iface("eth0", 2));
    store.remove(a);
    let b = store.insert(store_iface("eth0", 2));
    assert_ne!(a, b);
    assert!(store.get(a).is_none());
    assert_eq!(store.get(b).unwrap().name.0, "eth0");
    assert_eq!(store.id_with_name("eth0"), Some(b));
}

#[test]
fn rename_moves_the_name_index_entry() {
    let mut store = IfStore::new();
    let a = store.insert(store_iface("eth0", 2));
    store.rename_index(a, "wan0".to_string()).expect("name is free");
    assert_eq!(store.id_with_name("eth0"), None);
    assert_eq!(store.id_with_name("wan0"), Some(a));
    assert_eq!(store.id_with_ifindex(2), Some(a));
    let mut expected = store_iface("wan0", 2);
    expected.key = a;
    assert_eq!(store.get(a), Some(&expected));
}

#[test]
fn rename_to_the_own_name_succeeds() {
    let mut store = IfStore::new();
    let a = store.insert(store_iface("eth0", 2));
    assert!(store.rename_index(a, "eth0".to_string()).is_ok());
    assert_eq!(store.id_with_name("eth0"), Some(a));
    assert_eq!(store.len(), 1);
}

#[test]
fn rename_to_a_taken_name_fails_and_changes_nothing() {
    let mut store = IfStore::new();
    let a = store.insert(store_iface("eth0", 2));
    let b = store.insert(store_iface("eth1", 3));
    let before_a = store.get(a).unwrap().clone();
    let before_b = store.get(b).unwrap().clone();
    match store.rename_index(a, "eth1".to_string()) {
        Err(IfControlError::Invalid(m)) => assert_eq!(m, "eth1"),
        other => panic!("expected Invalid, got {:?}", other),
    }
    assert_eq!(store.id_with_name("eth0"), Some(a));
    assert_eq!(store.id_with_name("eth1"), Some(b));
    assert_eq!(store.id_with_ifindex(2), Some(a));
    assert_eq!(store.id_with_ifindex(3), Some(b));
    assert_eq!(store.get(a), Some(&before_a));
    assert_eq!(store.get(b), Some(&before_b));
}

#[test]
fn rename_of_a_dead_handle_is_not_found() {
    let mut store = IfStore::new();
    let a = store.insert(store_iface("eth0", 2));
    store.remove(a);
    match store.rename_index(a, "eth9".to_string()) {
        Err(IfControlError::NotFound(m)) => assert_eq!(m, NO_SUCH_HANDLE),
        other => panic!("expected NotFound, got {:?}", other),
    }
    assert_eq!(store.id_with_name("eth9"), None);
    assert_eq!(store.len(), 0);
}

#[test]
fn reindex_from_5_to_7_moves_the_entry() {
    let mut store = IfStore::new();
    let a = store.insert(store_iface("eth0", 5));
    store.update_ifindex(a, 7).expect("index is free");
    assert_eq!(store.id_with_ifindex(5), None);
    assert_eq!(store.id_with_ifindex(7), Some(a));
    assert_eq!(store.id_with_name("eth0"), Some(a));
    assert_eq!(store.get(a).unwrap().ifindex, IfIndex(7));
    assert_eq!(store.len(), 1);
}

#[test]
fn reindex_to_the_own_index_succeeds() {
    let mut store = IfStore::new();
    let a = store.insert(store_iface("eth0", 5));
    assert!(store.update_ifindex(a, 5).is_ok());
    assert_eq!(store.id_with_ifindex(5), Some(a));
}

#[test]
fn reindex_to_a_taken_index_fails_and_changes_nothing() {
    let mut store = IfStore::new();
    let a = store.insert(store_iface("eth0", 5));
    let b = store.insert(store_iface("eth1", 7));
    match store.update_ifindex(a, 7) {
        Err(IfControlError::Invalid(m)) => assert_eq!(m, INDEX_IN_USE),
        other => panic!("expected Invalid, got {:?}", other),
    }
    assert_eq!(store.id_with_ifindex(5), Some(a));
    assert_eq!(store.id_with_ifindex(7), Some(b));
    assert_eq!(store.get(a).unwrap().ifindex, IfIndex(5));
    assert_eq!(store.get(b).unwrap().ifindex, IfIndex(7));
}

#[test]
fn reindex_of_a_dead_handle_is_not_found_and_leaves_no_entry() {
    let mut store = IfStore::new();
    let a = store.insert(store_iface("eth0", 5));
    store.remove(a);
    match store.update_ifindex(a, 7) {
        Err(IfControlError::NotFound(m)) => assert_eq!(m, NO_SUCH_HANDLE),
        other => panic!("expected NotFound, got {:?}", other),
    }
    assert_eq!(store.id_with_ifindex(7), None);
    assert_eq!(store.id_with_ifindex(5), None);
}

#[test]
fn indices_stay_consistent_through_a_run_of_operations() {
    let names = ["eth0", "eth1", "eth2", "wan0", "lan0"];
    let indices = [1, 2, 3, 4, 5, 6, 7];
    let mut store = IfStore::new();
    let a = store.insert(store_iface("eth0", 1));
    store_is_consistent(&store, &names, &indices);
    let b = store.insert(store_iface("eth1", 2));
    store_is_consistent(&store, &names, &indices);
    let c = store.insert(store_iface("eth2", 3));
    store_is_consistent(&store, &names, &indices);
    store.rename_index(a, "wan0".to_string()).unwrap();
    store_is_consistent(&store, &names, &indices);
    assert!(store.rename_index(b, "eth2".to_string()).is_err());
    store_is_consistent(&store, &names, &indices);
    store.update_ifindex(b, 6).unwrap();
    store_is_consistent(&store, &names, &indices);
    assert!(store.update_ifindex(c, 6).is_err());
    store_is_consistent(&store, &names, &indices);
    store.remove(c);
    store_is_consistent(&store, &names, &indices);
    let d = store.insert(store_iface("lan0", 6));
    assert_eq!(d, b);
    store_is_consistent(&store, &names, &indices);
    let e = store.insert(store_iface("wan0", 7));
    assert_eq!(e, a);
    store_is_consistent(&store, &names, &indices);
    assert_eq!(store.len(), 2);
    assert_eq!(store.id_with_name("wan0"), Some(a));
    assert_eq!(store.id_with_ifindex(7), Some(a));
    assert_eq!(store.id_with_name("lan0"), Some(b));
    assert_eq!(store.id_with_ifindex(6), Some(b));
    assert_eq!(store.id_with_ifindex(1), None);
    assert_eq!(store.id_with_name("eth1"), None);
}

#[test]
fn get_hands_out_what_was_stored() {
    let mut store = IfStore::new();
    let mut ifp = store_iface("eth0", 2);
    ifp.addr.ipv4.push("192.0.2.1/24".parse().unwrap());
    ifp.addr.ipv6.push("2001:db8::1/64".parse().unwrap());
    ifp.addr.mac_addr = Some([2, 0, 0, 0, 0, 1]);
    ifp.link_set.keepalive = Some(10);
    let a = store.insert(ifp.clone());
    let mut expected = ifp;
    expected.key = a;
    assert_eq!(store.get(a), Some(&expected));
    assert_eq!(store.get(a).unwrap().clone(), expected);
}
