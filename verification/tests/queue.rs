use xsched::pqueue::TickQueue;

#[test]
fn queue_keeps_arrival_order_within_a_tick() {
    let mut q: TickQueue<u32> = TickQueue::with_capacity(8);
    assert!(q.enqueue(5, 1).is_ok());
    assert!(q.enqueue(5, 2).is_ok());
    assert!(q.enqueue(3, 3).is_ok());
    assert_eq!(q.dequeue_lt(10), Some((3, 3)));
    assert_eq!(q.dequeue_lt(10), Some((5, 1)));
    assert_eq!(q.dequeue_lt(10), Some((5, 2)));
    assert_eq!(q.dequeue_lt(10), None);
}

#[test]
fn queue_is_bounded() {
    let mut q: TickQueue<u32> = TickQueue::with_capacity(2);
    assert_eq!(2, q.capacity());
    assert!(q.is_empty());
    assert_eq!(None, q.peek_tick());
    assert_eq!(Ok(()), q.enqueue(9, 1));
    assert_eq!(Ok(()), q.enqueue(4, 2));
    assert_eq!(Err(3), q.enqueue(1, 3));
    assert_eq!(2, q.len());
    assert_eq!(Some(4), q.peek_tick());
    assert_eq!(None, q.dequeue_lt(4));
    assert_eq!(Some((4, 2)), q.dequeue_lt(5));
    assert_eq!(Ok(()), q.enqueue(1, 3));
    assert_eq!(Some((1, 3)), q.dequeue_lt(5));
    assert_eq!(None, q.dequeue_lt(9));
    assert_eq!(Some((9, 1)), q.dequeue_lt(10));
}

#[test]
fn later_arrivals_for_an_earlier_tick_go_in_front() {
    let mut q: TickQueue<&str> = TickQueue::with_capacity(8);
    for (t, name) in [(5, "a"), (7, "b"), (5, "c"), (0, "d"), (7, "e"), (6, "f")] {
        assert!(q.enqueue(t, name).is_ok());
    }
    let mut order = Vec::new();
    while let Some((t, name)) = q.dequeue_lt(usize::MAX) {
        order.push((t, name));
    }
    assert_eq!(
        vec![(0, "d"), (5, "a"), (5, "c"), (6, "f"), (7, "b"), (7, "e")],
        order
    );
}
