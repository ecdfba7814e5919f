use pecan::queue::{Queue, TryPopError, TryPushError};

#[test]
fn capacity_admits_exactly_n_items_then_full() {
    for n in 1..6usize {
        let mut q: Queue<usize> = Queue::bounded(n);
        for i in 0..n {
            assert!(q.try_push(i).is_ok());
        }
        assert_eq!(q.len(), n);
        match q.try_push(99) {
            Err(TryPushError::Full(v)) => assert_eq!(v, 99),
            _ => panic!("expected a full queue"),
        }
        for i in 0..n {
            assert_eq!(q.pop(), Some(i));
        }
        assert!(q.is_empty());
    }
}

#[test]
fn try_pop_on_empty_open_queue_is_empty() {
    let mut q: Queue<u8> = Queue::bounded(2);
    assert!(matches!(q.try_pop(), Err(TryPopError::Empty)));
    assert!(!q.is_closed());
}

#[test]
fn close_refuses_pushes_and_keeps_buffered_items() {
    let mut q: Queue<&str> = Queue::bounded(3);
    assert!(q.push("a").is_ok());
    assert!(q.push("b").is_ok());
    q.close();
    assert!(q.is_closed());
    match q.try_push("c") {
        Err(TryPushError::Closed(v)) => assert_eq!(v, "c"),
        _ => panic!("expected a closed queue"),
    }
    assert_eq!(q.push("d"), Err("d"));
    assert_eq!(q.len(), 2);
    assert_eq!(q.try_pop().ok(), Some("a"));
    assert_eq!(q.pop(), Some("b"));
    assert!(matches!(q.try_pop(), Err(TryPopError::Closed)));
    assert_eq!(q.pop(), None);
}

#[test]
fn close_twice_is_harmless() {
    let mut q: Queue<i32> = Queue::bounded(1);
    q.close();
    q.close();
    assert!(q.is_closed());
    assert!(q.is_empty());
}

#[test]
fn full_queue_refuses_before_and_accepts_after_a_pop() {
    let mut q: Queue<i32> = Queue::bounded(2);
    assert!(q.try_push(1).is_ok());
    assert!(q.try_push(2).is_ok());
    assert!(matches!(q.try_push(3), Err(TryPushError::Full(3))));
    assert_eq!(q.try_pop().ok(), Some(1));
    assert!(q.try_push(3).is_ok());
    assert_eq!(q.pop(), Some(2));
    assert_eq!(q.pop(), Some(3));
}
