use tokio::sync::broadcast::error::TryRecvError;
use zero::broadcast::{Broadcaster, CHANNEL_CAPACITY};
use zero::watch::{forward, is_change, ChangeKind, WatchNotice};

#[test]
fn publish_without_subscribers_is_dropped() {
    let mut b = Broadcaster::new(CHANNEL_CAPACITY);
    assert_eq!(b.capacity(), 16);
    assert_eq!(b.publish(), None);
}

#[test]
fn publish_reaches_every_subscriber() {
    let mut b = Broadcaster::new(4);
    let mut r1 = b.subscribe();
    let mut r2 = b.subscribe();
    let mut r3 = b.subscribe();
    assert_eq!(b.publish(), Some(3));
    assert_eq!(r1.try_recv(), Ok(()));
    assert_eq!(r2.try_recv(), Ok(()));
    assert_eq!(r3.try_recv(), Ok(()));
    assert_eq!(r1.try_recv(), Err(TryRecvError::Empty));
}

#[test]
fn late_subscriber_sees_no_backlog() {
    let mut b = Broadcaster::new(4);
    let _early = b.subscribe();
    b.publish();
    let mut late = b.subscribe();
    assert_eq!(late.try_recv(), Err(TryRecvError::Empty));
    b.publish();
    assert_eq!(late.try_recv(), Ok(()));
}

#[test]
fn dropping_one_subscriber_leaves_others() {
    let mut b = Broadcaster::new(4);
    let r1 = b.subscribe();
    let mut r2 = b.subscribe();
    drop(r1);
    assert_eq!(b.publish(), Some(1));
    assert_eq!(r2.try_recv(), Ok(()));
}

#[test]
fn slow_subscriber_lags_without_blocking() {
    let mut b = Broadcaster::new(2);
    let mut slow = b.subscribe();
    let mut fast = b.subscribe();
    for _ in 0..5 {
        assert_eq!(b.publish(), Some(2));
        assert_eq!(fast.try_recv(), Ok(()));
    }
    assert!(matches!(slow.try_recv(), Err(TryRecvError::Lagged(_))));
    assert_eq!(slow.try_recv(), Ok(()));
}

#[test]
fn only_changes_are_forwarded() {
    let mut b = Broadcaster::new(8);
    let mut r = b.subscribe();
    assert!(forward(&mut b, WatchNotice::Event(ChangeKind::Modify)));
    assert!(forward(&mut b, WatchNotice::Event(ChangeKind::Create)));
    assert!(forward(&mut b, WatchNotice::Event(ChangeKind::Remove)));
    assert!(!forward(&mut b, WatchNotice::Event(ChangeKind::Access)));
    assert!(!forward(&mut b, WatchNotice::Event(ChangeKind::Any)));
    assert!(!forward(&mut b, WatchNotice::Event(ChangeKind::Other)));
    assert!(!forward(&mut b, WatchNotice::Error));
    for _ in 0..3 {
        assert_eq!(r.try_recv(), Ok(()));
    }
    assert_eq!(r.try_recv(), Err(TryRecvError::Empty));
}

#[test]
fn shared_handle_publishes_on_same_channel() {
    let b = Broadcaster::new(4);
    let mut other = b.share();
    assert_eq!(other.capacity(), 4);
    let mut r = b.subscribe();
    assert_eq!(other.publish(), Some(1));
    assert_eq!(r.try_recv(), Ok(()));
}

#[test]
fn failed_publish_does_not_stop_forwarding() {
    let mut b = Broadcaster::new(4);
    assert!(forward(&mut b, WatchNotice::Event(ChangeKind::Modify)));
    let mut r = b.subscribe();
    assert!(forward(&mut b, WatchNotice::Event(ChangeKind::Create)));
    assert_eq!(r.try_recv(), Ok(()));
}

#[test]
fn change_kinds() {
    assert!(is_change(WatchNotice::Event(ChangeKind::Modify)));
    assert!(!is_change(WatchNotice::Event(ChangeKind::Access)));
}
