use mpmc::Bounded;
use mpmc::Capacity;
use mpmc::Connectivity;
use mpmc::Crossbeam;
use mpmc::Flume;
use mpmc::Receiver;
use mpmc::RecvErrorKind;
use mpmc::SendErrorKind;
use mpmc::Sender;
use mpmc::Unbounded;

#[test]
fn crossbeam_roundtrip() {
    let (mut tx, mut rx) = Crossbeam::unbounded();
    tx.send(1).unwrap();
    assert_eq!(rx.recv().unwrap(), 1);
    assert_eq!(rx.recv().unwrap_err().kind, RecvErrorKind::Empty);
}

#[test]
fn crossbeam_scenario_bounded_two() {
    let (mut tx, mut rx) = Crossbeam::bounded(2);
    assert!(tx.send(1).is_ok());
    assert!(tx.send(2).is_ok());
    let err = tx.send(3).unwrap_err();
    assert_eq!(err.kind, SendErrorKind::Full);
    assert_eq!(err.item, 3);
    assert_eq!(rx.recv().unwrap(), 1);
    assert!(tx.send(3).is_ok());
}

#[test]
fn crossbeam_disconnect() {
    let (mut tx, rx) = Crossbeam::unbounded();
    drop(rx);
    let err = tx.send(1).unwrap_err();
    assert_eq!(err.kind, SendErrorKind::Disconnected);
    assert_eq!(err.item, 1);

    let (tx, mut rx) = Crossbeam::<()>::unbounded();
    drop(tx);
    assert_eq!(rx.recv().unwrap_err().kind, RecvErrorKind::Disconnected);
}

#[test]
fn crossbeam_queries() {
    let (tx, rx) = Crossbeam::<u8>::bounded(2);
    assert_eq!(tx.capacity(), Some(2));
    assert_eq!(rx.capacity(), Some(2));
    assert!(rx.is_empty());
    assert!(!tx.is_full());

    let (tx, rx) = Crossbeam::<u8>::unbounded();
    assert_eq!(tx.capacity(), None);
    assert_eq!(rx.capacity(), None);
    assert!(rx.is_empty());
}

#[test]
fn crossbeam_clone_keeps_channel_open() {
    let (tx, mut rx) = Crossbeam::<u8>::unbounded();
    let mut tx2 = tx.clone();
    drop(tx);
    tx2.send(9).unwrap();
    assert_eq!(rx.recv().unwrap(), 9);
}

#[test]
fn flume_roundtrip() {
    let (mut tx, mut rx) = Flume::unbounded();
    tx.send(1).unwrap();
    assert_eq!(rx.recv().unwrap(), 1);
    assert_eq!(rx.recv().unwrap_err().kind, RecvErrorKind::Empty);
}

#[test]
fn flume_scenario_bounded_two() {
    let (mut tx, mut rx) = Flume::bounded(2);
    assert!(tx.send(1).is_ok());
    assert!(tx.send(2).is_ok());
    let err = tx.send(3).unwrap_err();
    assert_eq!(err.kind, SendErrorKind::Full);
    assert_eq!(err.item, 3);
    assert_eq!(rx.recv().unwrap(), 1);
    assert!(tx.send(3).is_ok());
}

#[test]
fn flume_disconnect() {
    let (mut tx, rx) = Flume::unbounded();
    drop(rx);
    assert!(!tx.is_connected());
    let err = tx.send(1).unwrap_err();
    assert_eq!(err.kind, SendErrorKind::Disconnected);
    assert_eq!(err.item, 1);

    let (tx, mut rx) = Flume::<()>::unbounded();
    drop(tx);
    assert!(!rx.is_connected());
    assert_eq!(rx.recv().unwrap_err().kind, RecvErrorKind::Disconnected);
}

#[test]
fn flume_queries() {
    let (tx, rx) = Flume::<u8>::bounded(2);
    assert!(tx.is_connected());
    assert!(rx.is_connected());
    assert_eq!(tx.capacity(), Some(2));
    assert_eq!(rx.capacity(), Some(2));
    assert!(rx.is_empty());
    assert!(!tx.is_full());

    let (tx, rx) = Flume::<u8>::unbounded();
    assert_eq!(tx.capacity(), None);
    assert_eq!(rx.capacity(), None);
    assert!(rx.is_empty());
}

#[test]
fn flume_clone_keeps_channel_open() {
    let (tx, mut rx) = Flume::<u8>::unbounded();
    let mut tx2 = tx.clone();
    drop(tx);
    assert!(rx.is_connected());
    tx2.send(9).unwrap();
    assert_eq!(rx.recv().unwrap(), 9);
}
