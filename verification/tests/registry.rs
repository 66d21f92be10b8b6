use superchan::registry::ClientRegistry;

#[test]
fn ids_count_up_from_one() {
    let mut reg = ClientRegistry::new();
    assert_eq!(reg.connect(), 1);
    assert_eq!(reg.connect(), 2);
    assert_eq!(reg.connect(), 3);
    assert_eq!(reg.live_count(), 3);
}

#[test]
fn live_ids_are_distinct() {
    let mut reg = ClientRegistry::new();
    let a = reg.connect();
    let b = reg.connect();
    let c = reg.connect();
    assert!(a != b && b != c && a != c);
    assert!(reg.is_live(a) && reg.is_live(b) && reg.is_live(c));
}

#[test]
fn two_clients_then_reuse() {
    // Two clients connect in order: ids 1 and 2.  The first disconnects; a
    // third client connecting afterward is assigned id 1, not 3.
    let mut reg = ClientRegistry::new();
    let first = reg.connect();
    let second = reg.connect();
    assert_eq!(first, 1);
    assert_eq!(second, 2);
    reg.disconnect(first);
    let third = reg.connect();
    assert_eq!(third, 1);
}

#[test]
fn reuse_is_fifo_not_lifo() {
    // Clients 1, 2, 3 connect; 1 and then 2 disconnect.  The next two
    // connections take 1 then 2 — the oldest freed id first.
    let mut reg = ClientRegistry::new();
    let a = reg.connect();
    let b = reg.connect();
    let _c = reg.connect();
    reg.disconnect(a);
    reg.disconnect(b);
    assert_eq!(reg.connect(), 1);
    assert_eq!(reg.connect(), 2);
    assert_eq!(reg.connect(), 4);
}

#[test]
fn disconnect_removes_the_id_from_the_live_set() {
    let mut reg = ClientRegistry::new();
    let a = reg.connect();
    let b = reg.connect();
    reg.disconnect(a);
    assert!(!reg.is_live(a));
    assert!(reg.is_live(b));
    assert_eq!(reg.live_count(), 1);
}

#[test]
fn freed_id_is_reusable_after_disconnect() {
    let mut reg = ClientRegistry::new();
    let a = reg.connect();
    reg.disconnect(a);
    assert!(!reg.is_live(a));
    let again = reg.connect();
    assert_eq!(again, a);
    assert!(reg.is_live(a));
}
