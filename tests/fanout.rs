use carbide::utils::stream::broadcast::Broadcast;

#[test]
fn every_subscriber_sees_every_item_in_order() {
    let mut b: Broadcast<u32> = Broadcast::new(1);
    let first = b.receive();
    let second = b.receive();
    let mut seen = (Vec::new(), Vec::new());
    for item in 0..5u32 {
        assert!(b.is_ready());
        b.push(item);
        assert!(!b.is_ready());
        let x = *b.peek(first).unwrap();
        b.advance(first);
        seen.0.push(x);
        assert!(!b.is_ready());
        let y = *b.peek(second).unwrap();
        b.advance(second);
        seen.1.push(y);
        assert!(b.peek(first).is_none());
    }
    assert_eq!(seen.0, vec![0, 1, 2, 3, 4]);
    assert_eq!(seen.1, vec![0, 1, 2, 3, 4]);
}

#[test]
fn slow_subscriber_holds_back_upstream() {
    let mut b: Broadcast<&str> = Broadcast::new(2);
    let fast = b.receive();
    let slow = b.receive();
    b.push("a");
    b.advance(fast);
    b.push("b");
    b.advance(fast);
    assert!(!b.is_ready());
    assert_eq!(b.peek(slow), Some(&"a"));
    b.advance(slow);
    assert!(b.is_ready());
    assert_eq!(b.peek(slow), Some(&"b"));
    assert_eq!(b.peek(fast), None);
}

#[test]
fn late_subscriber_misses_earlier_items() {
    let mut b: Broadcast<u8> = Broadcast::new(4);
    let early = b.receive();
    b.push(1);
    let late = b.receive();
    b.push(2);
    assert_eq!(b.peek(early), Some(&1));
    assert_eq!(b.peek(late), Some(&2));
    b.advance(late);
    assert_eq!(b.peek(late), None);
}

#[test]
fn no_subscribers_is_always_ready() {
    let mut b: Broadcast<u8> = Broadcast::new(1);
    b.push(1);
    b.push(2);
    assert!(b.is_ready());
}
