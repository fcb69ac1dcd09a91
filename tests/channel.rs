use ndless_async::mpsc::channel;
use ndless_async::wake::{Poll, WakeMarker};

#[test]
fn capacity_two_scenario() {
    let mut marker = WakeMarker::new();
    let mut ch = channel::<u32>(2);
    assert_eq!(ch.send(1, &mut marker), Ok(()));
    assert_eq!(ch.send(2, &mut marker), Ok(()));
    assert_eq!(ch.send(3, &mut marker), Err(3));
    assert_eq!(ch.poll_next(), Poll::Ready(Some(1)));
    assert_eq!(ch.send(3, &mut marker), Ok(()));
    assert_eq!(ch.poll_next(), Poll::Ready(Some(2)));
    assert_eq!(ch.poll_next(), Poll::Ready(Some(3)));
    ch.drop_sender();
    assert_eq!(ch.poll_next(), Poll::Ready(None));
}

#[test]
fn full_channel_refuses_then_accepts_after_pop() {
    let mut marker = WakeMarker::new();
    let mut ch = channel::<u8>(3);
    for v in 0..3u8 {
        assert_eq!(ch.send(v, &mut marker), Ok(()));
    }
    assert!(ch.is_full());
    assert_eq!(ch.len(), 3);
    assert_eq!(ch.capacity(), 3);
    assert_eq!(ch.send(9, &mut marker), Err(9));
    assert_eq!(ch.len(), 3);
    assert_eq!(ch.poll_next(), Poll::Ready(Some(0)));
    assert!(!ch.is_full());
    assert_eq!(ch.send(9, &mut marker), Ok(()));
}

#[test]
fn pending_while_a_sender_lives() {
    let mut ch = channel::<u8>(1);
    assert!(ch.is_empty());
    assert_eq!(ch.poll_next(), Poll::Pending);
    ch.clone_sender();
    ch.drop_sender();
    assert_eq!(ch.poll_next(), Poll::Pending);
}

#[test]
fn termination_repeats_and_drains_first() {
    let mut marker = WakeMarker::new();
    let mut ch = channel::<u8>(4);
    assert_eq!(ch.send(7, &mut marker), Ok(()));
    ch.drop_sender();
    assert_eq!(ch.poll_next(), Poll::Ready(Some(7)));
    for _ in 0..5 {
        assert_eq!(ch.poll_next(), Poll::Ready(None));
    }
}

#[test]
fn send_wakes_a_registered_receiver() {
    let mut marker = WakeMarker::new();
    assert!(marker.take());
    let mut ch = channel::<u8>(1);
    assert_eq!(ch.send(1, &mut marker), Ok(()));
    assert!(!marker.is_runnable());
    assert_eq!(ch.poll_next(), Poll::Ready(Some(1)));
    assert_eq!(ch.poll_next(), Poll::Pending);
    assert_eq!(ch.send(2, &mut marker), Ok(()));
    assert!(marker.is_runnable());
}

#[test]
fn wake_is_idempotent() {
    let mut once = WakeMarker::new();
    let mut twice = WakeMarker::new();
    once.take();
    twice.take();
    once.wake();
    twice.wake();
    twice.wake();
    assert_eq!(once.is_runnable(), twice.is_runnable());
    assert!(twice.take());
    assert!(!twice.take());
}
