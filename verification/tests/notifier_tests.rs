use lemon_tree_core::notifier::EventNotifier;

#[test]
fn drains_in_fifo_order_exactly_once() {
    let mut n = EventNotifier::new();
    n.publish("first".to_string());
    n.publish("second".to_string());
    n.publish("third".to_string());
    assert_eq!(n.len(), 3);
    assert_eq!(n.drain_one(), Some("first".to_string()));
    assert_eq!(n.drain_one(), Some("second".to_string()));
    assert_eq!(n.drain_one(), Some("third".to_string()));
    assert_eq!(n.drain_one(), None);
    assert_eq!(n.len(), 0);
}

#[test]
fn draining_an_empty_queue_returns_nothing() {
    let mut n = EventNotifier::new();
    assert_eq!(n.drain_one(), None);
    assert_eq!(n.drain_one(), None);
    assert_eq!(n.len(), 0);
}

#[test]
fn publishing_after_a_drain_keeps_arrival_order() {
    let mut n = EventNotifier::new();
    n.publish("a".to_string());
    n.publish("b".to_string());
    assert_eq!(n.drain_one(), Some("a".to_string()));
    n.publish("c".to_string());
    assert_eq!(n.drain_one(), Some("b".to_string()));
    assert_eq!(n.drain_one(), Some("c".to_string()));
    assert_eq!(n.drain_one(), None);
}
