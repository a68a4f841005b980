use async_signal::queue::MAX_SIGNALS;
use async_signal::Signal;
use async_signal::SignalQueue;

#[test]
fn queue_is_made_for_sixteen_signals() {
    assert_eq!(MAX_SIGNALS, 16);
    let queue = SignalQueue::new();
    assert_eq!(queue.capacity(), Some(16));
    assert_eq!(queue.handle().capacity(), Some(16));
}

#[test]
fn new_queue_is_empty() {
    let queue = SignalQueue::new();
    assert_eq!(queue.pop(), None);
}

#[test]
fn signals_leave_in_the_order_of_arrival() {
    let queue = SignalQueue::new();
    assert!(queue.push(Signal::Term));
    assert!(queue.push(Signal::Int));
    assert!(queue.push(Signal::Term));
    assert_eq!(queue.pop(), Some(Signal::Term));
    assert_eq!(queue.pop(), Some(Signal::Int));
    assert_eq!(queue.pop(), Some(Signal::Term));
    assert_eq!(queue.pop(), None);
}

#[test]
fn full_queue_drops_what_arrives() {
    let queue = SignalQueue::new();
    let mut accepted = 0;
    for _ in 0..20 {
        if queue.push(Signal::Usr1) {
            accepted += 1;
        }
    }
    assert_eq!(accepted, 16);
    assert!(!queue.push(Signal::Int));
    let mut popped = 0;
    while let Some(signal) = queue.pop() {
        assert_eq!(signal, Signal::Usr1);
        popped += 1;
    }
    assert_eq!(popped, 16);
}

#[test]
fn room_comes_back_when_a_signal_leaves() {
    let queue = SignalQueue::new();
    for _ in 0..16 {
        assert!(queue.push(Signal::Hup));
    }
    assert!(!queue.push(Signal::Int));
    assert_eq!(queue.pop(), Some(Signal::Hup));
    assert!(queue.push(Signal::Int));
    for _ in 0..15 {
        assert_eq!(queue.pop(), Some(Signal::Hup));
    }
    assert_eq!(queue.pop(), Some(Signal::Int));
    assert_eq!(queue.pop(), None);
}

#[test]
fn handles_share_one_queue() {
    let consumer = SignalQueue::new();
    let first = consumer.handle();
    let second = consumer.handle();
    assert!(first.push(Signal::Int));
    assert!(second.push(Signal::Term));
    assert_eq!(consumer.pop(), Some(Signal::Int));
    assert_eq!(consumer.pop(), Some(Signal::Term));
    assert_eq!(consumer.pop(), None);
}
