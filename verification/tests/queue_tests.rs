use blocking_io_client::events::InboundEvent;
use blocking_io_client::queue::EventQueue;

fn user(uid: u128) -> InboundEvent {
    InboundEvent::UserAssigned { uid, name: format!("user-{}", uid) }
}

fn uid_of(e: &InboundEvent) -> u128 {
    match e {
        InboundEvent::UserAssigned { uid, .. } => *uid,
        _ => panic!("unexpected event"),
    }
}

#[test]
fn drain_one_returns_events_in_fifo_order() {
    let mut q = EventQueue::new();
    q.enqueue(user(1));
    q.enqueue(user(2));
    q.enqueue(user(3));
    assert_eq!(q.len(), 3);
    assert_eq!(uid_of(&q.drain_one().unwrap()), 1);
    assert_eq!(uid_of(&q.drain_one().unwrap()), 2);
    assert_eq!(uid_of(&q.drain_one().unwrap()), 3);
    assert!(q.drain_one().is_none());
    assert_eq!(q.len(), 0);
}

#[test]
fn drain_all_empties_the_queue_in_order() {
    let mut q = EventQueue::new();
    for uid in 10..20 {
        q.enqueue(user(uid));
    }
    let all = q.drain_all();
    assert_eq!(all.len(), 10);
    for (i, e) in all.iter().enumerate() {
        assert_eq!(uid_of(e), 10 + i as u128);
    }
    assert_eq!(q.len(), 0);
    assert!(q.drain_all().is_empty());
}

#[test]
fn interleaved_producers_keep_their_own_order() {
    // Producer A enqueues 100, 101, 102; producer B enqueues 200, 201;
    // the enqueues interleave arbitrarily.
    let mut q = EventQueue::new();
    q.enqueue(user(100));
    q.enqueue(user(200));
    q.enqueue(user(101));
    q.enqueue(user(201));
    q.enqueue(user(102));
    let drained: Vec<u128> = q.drain_all().iter().map(uid_of).collect();
    let a: Vec<u128> = drained.iter().copied().filter(|u| *u < 200).collect();
    let b: Vec<u128> = drained.iter().copied().filter(|u| *u >= 200).collect();
    assert_eq!(a, vec![100, 101, 102]);
    assert_eq!(b, vec![200, 201]);
}
