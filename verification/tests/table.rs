use tunnel_client::addr::SocketAddr;
use tunnel_client::table::Table;

#[test]
fn insert_get_remove() {
    let mut t: Table<String, u32> = Table::new();
    assert_eq!(t.len(), 0);
    assert_eq!(t.insert("a".to_string(), 1), None);
    assert_eq!(t.insert("b".to_string(), 2), None);
    assert_eq!(t.insert("a".to_string(), 3), Some(1));
    assert_eq!(t.len(), 2);
    assert_eq!(t.get(&"a".to_string()), Some(&3));
    assert_eq!(t.get(&"c".to_string()), None);
    assert!(t.contains_key(&"b".to_string()));
    assert_eq!(t.remove(&"a".to_string()), Some(3));
    assert_eq!(t.remove(&"a".to_string()), None);
    assert_eq!(t.get(&"b".to_string()), Some(&2));
}

#[test]
fn drain_gives_each_entry_once() {
    let mut t: Table<String, u32> = Table::new();
    for (k, v) in [("x", 1), ("y", 2), ("z", 3), ("y", 4)] {
        t.insert(k.to_string(), v);
    }
    let mut all = t.drain();
    all.sort();
    assert_eq!(
        all,
        vec![("x".to_string(), 1), ("y".to_string(), 4), ("z".to_string(), 3)]
    );
    assert_eq!(t.len(), 0);
}

#[test]
fn listing_shows_every_entry() {
    let mut t: Table<String, u32> = Table::new();
    t.insert("x".to_string(), 1);
    t.insert("y".to_string(), 2);
    let mut seen = Vec::new();
    for i in 0..t.len() {
        let (k, v) = t.at(i);
        seen.push((k.clone(), *v));
    }
    seen.sort();
    assert_eq!(seen, vec![("x".to_string(), 1), ("y".to_string(), 2)]);
}

#[test]
fn addresses_as_keys() {
    let mut t: Table<SocketAddr, u32> = Table::new();
    let a = SocketAddr::V4 { ip4: 1, port: 80 };
    let b = SocketAddr::V4 { ip4: 1, port: 81 };
    let c = SocketAddr::V6 { ip6: 1, port: 80, flowinfo: 0, scope_id: 0 };
    let d = SocketAddr::V6 { ip6: 1, port: 80, flowinfo: 0, scope_id: 1 };
    t.insert(a, 1);
    t.insert(c, 2);
    assert_eq!(t.get(&a), Some(&1));
    assert_eq!(t.get(&b), None);
    assert_eq!(t.get(&c), Some(&2));
    assert_eq!(t.get(&d), None);
}
