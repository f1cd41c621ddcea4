use peer_sync::channel::Handoff;

#[test]
fn handoff_preserves_enqueue_order() {
    let mut ch: Handoff<u32> = Handoff::new(5);
    ch.send(10);
    ch.send(20);
    ch.send(30);
    assert_eq!(ch.len(), 3);
    assert_eq!(ch.recv(), Some(10));
    assert_eq!(ch.recv(), Some(20));
    assert_eq!(ch.recv(), Some(30));
    assert_eq!(ch.recv(), None);
}

#[test]
fn handoff_discards_oldest_when_full() {
    let mut ch: Handoff<u32> = Handoff::new(2);
    ch.send(1);
    ch.send(2);
    ch.send(3);
    assert_eq!(ch.len(), 2);
    assert_eq!(ch.recv(), Some(2));
    assert_eq!(ch.recv(), Some(3));
    assert_eq!(ch.recv(), None);
}

#[test]
fn handoff_capacity_one_keeps_latest() {
    let mut ch: Handoff<&str> = Handoff::new(1);
    ch.send("first");
    ch.send("second");
    ch.send("third");
    assert_eq!(ch.len(), 1);
    assert_eq!(ch.recv(), Some("third"));
}

#[test]
fn handoff_reports_capacity() {
    let ch: Handoff<u8> = Handoff::new(100);
    assert_eq!(ch.capacity(), 100);
    assert_eq!(ch.len(), 0);
}
