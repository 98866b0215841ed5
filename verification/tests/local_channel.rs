use mpmc::local::Mpmc;
use mpmc::RecvErrorKind;
use mpmc::SendErrorKind;

#[test]
fn local_test_channel() {
    let mut ch = Mpmc::unbounded();
    ch.send(1).unwrap();
    assert_eq!(ch.recv().unwrap(), 1);
}

#[test]
fn local_test_channel_disconnect() {
    let mut ch = Mpmc::unbounded();
    ch.drop_receiver();
    assert_eq!(ch.send(1).unwrap_err().kind, SendErrorKind::Disconnected);

    let mut ch = Mpmc::<()>::unbounded();
    ch.drop_sender();
    assert_eq!(ch.recv().unwrap_err().kind, RecvErrorKind::Disconnected);
}

#[test]
fn local_fifo_order() {
    let mut ch = Mpmc::unbounded();
    for i in 0..50 {
        ch.send(i).unwrap();
    }
    for i in 0..50 {
        assert_eq!(ch.recv().unwrap(), i);
    }
    assert_eq!(ch.recv().unwrap_err().kind, RecvErrorKind::Empty);
}

#[test]
fn local_scenario_bounded_two() {
    let mut ch = Mpmc::bounded(2);
    assert!(ch.send(1).is_ok());
    assert!(ch.send(2).is_ok());
    let err = ch.send(3).unwrap_err();
    assert_eq!(err.kind, SendErrorKind::Full);
    assert_eq!(err.item, 3);
    assert_eq!(ch.recv().unwrap(), 1);
    assert!(ch.send(3).is_ok());
}

#[test]
fn local_capacity_law() {
    let mut ch = Mpmc::bounded(3);
    for i in 0..3 {
        assert!(ch.send(i).is_ok());
    }
    assert!(ch.is_full());
    let err = ch.send(99).unwrap_err();
    assert_eq!(err.kind, SendErrorKind::Full);
    assert_eq!(err.item, 99);
    assert_eq!(ch.recv().unwrap(), 0);
    assert!(ch.send(99).is_ok());
    assert_eq!(ch.send(100).unwrap_err().kind, SendErrorKind::Full);
}

#[test]
fn local_sender_disconnection_drains() {
    let mut ch = Mpmc::unbounded();
    ch.send(10).unwrap();
    ch.send(20).unwrap();
    ch.drop_sender();
    assert!(!ch.receiver_is_connected());
    assert_eq!(ch.recv().unwrap(), 10);
    assert_eq!(ch.recv().unwrap(), 20);
    assert_eq!(ch.recv().unwrap_err().kind, RecvErrorKind::Disconnected);
    assert_eq!(ch.recv().unwrap_err().kind, RecvErrorKind::Disconnected);
}

#[test]
fn local_receiver_disconnection() {
    let mut ch = Mpmc::unbounded();
    ch.drop_receiver();
    assert!(!ch.sender_is_connected());
    let err = ch.send(1).unwrap_err();
    assert_eq!(err.kind, SendErrorKind::Disconnected);
    assert_eq!(err.item, 1);
}

#[test]
fn local_clone_independence() {
    let mut ch = Mpmc::<u8>::unbounded();
    ch.clone_sender();
    ch.drop_sender();
    assert!(ch.receiver_is_connected());
    ch.clone_receiver();
    ch.drop_receiver();
    assert!(ch.sender_is_connected());
    ch.send(5).unwrap();
    assert_eq!(ch.recv().unwrap(), 5);
}

#[test]
fn local_queries() {
    let mut ch = Mpmc::<u8>::bounded(4);
    assert_eq!(ch.capacity(), Some(4));
    assert!(ch.is_empty());
    assert!(!ch.is_full());
    ch.send(1).unwrap();
    assert!(!ch.is_empty());

    let un = Mpmc::<u8>::unbounded();
    assert_eq!(un.capacity(), None);
    assert!(!un.is_full());
    assert!(un.is_empty());
}

#[test]
fn local_zero_capacity_always_full() {
    let mut ch = Mpmc::bounded(0);
    assert!(ch.is_full());
    let err = ch.send(1).unwrap_err();
    assert_eq!(err.kind, SendErrorKind::Full);
    assert_eq!(err.item, 1);
    assert_eq!(ch.recv().unwrap_err().kind, RecvErrorKind::Empty);
}

#[test]
fn local_many_clones() {
    let mut ch = Mpmc::<u8>::unbounded();
    for _ in 0..10 {
        ch.clone_sender();
    }
    for _ in 0..10 {
        ch.drop_sender();
    }
    assert!(ch.receiver_is_connected());
    ch.drop_sender();
    assert!(!ch.receiver_is_connected());
}
