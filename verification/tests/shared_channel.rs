use mpmc::shared::Mpmc;
use mpmc::Bounded;
use mpmc::Capacity;
use mpmc::Connectivity;
use mpmc::Receiver;
use mpmc::RecvErrorKind;
use mpmc::SendErrorKind;
use mpmc::Sender;
use mpmc::Unbounded;

#[test]
fn mod_test_channel() {
    let (mut tx, mut rx) = Mpmc::unbounded();
    tx.send(1).unwrap();
    assert_eq!(rx.recv().unwrap(), 1);
}

#[test]
fn mod_test_channel_disconnect() {
    let (mut tx, rx) = Mpmc::unbounded();
    drop(rx);
    assert_eq!(tx.send(1).unwrap_err().kind, SendErrorKind::Disconnected);

    let (tx, mut rx) = Mpmc::<()>::unbounded();
    drop(tx);
    assert_eq!(rx.recv().unwrap_err().kind, RecvErrorKind::Disconnected);
}

#[test]
fn shared_fifo_order() {
    let (mut tx, mut rx) = Mpmc::unbounded();
    for i in 0..50 {
        tx.send(i).unwrap();
    }
    for i in 0..50 {
        assert_eq!(rx.recv().unwrap(), i);
    }
    assert_eq!(rx.recv().unwrap_err().kind, RecvErrorKind::Empty);
}

#[test]
fn shared_scenario_bounded_two() {
    let (mut tx, mut rx) = Mpmc::bounded(2);
    assert!(tx.send(1).is_ok());
    assert!(tx.send(2).is_ok());
    let err = tx.send(3).unwrap_err();
    assert_eq!(err.kind, SendErrorKind::Full);
    assert_eq!(err.item, 3);
    assert_eq!(rx.recv().unwrap(), 1);
    assert!(tx.send(3).is_ok());
}

#[test]
fn shared_capacity_law() {
    let (mut tx, mut rx) = Mpmc::bounded(3);
    for i in 0..3 {
        assert!(tx.send(i).is_ok());
    }
    assert!(tx.is_full());
    let err = tx.send(99).unwrap_err();
    assert_eq!(err.kind, SendErrorKind::Full);
    assert_eq!(err.item, 99);
    assert_eq!(rx.recv().unwrap(), 0);
    assert!(tx.send(99).is_ok());
    assert_eq!(tx.send(100).unwrap_err().kind, SendErrorKind::Full);
}

#[test]
fn shared_sender_disconnection_drains() {
    let (mut tx, mut rx) = Mpmc::unbounded();
    tx.send(10).unwrap();
    tx.send(20).unwrap();
    drop(tx);
    assert!(!rx.is_connected());
    assert_eq!(rx.recv().unwrap(), 10);
    assert_eq!(rx.recv().unwrap(), 20);
    assert_eq!(rx.recv().unwrap_err().kind, RecvErrorKind::Disconnected);
    assert_eq!(rx.recv().unwrap_err().kind, RecvErrorKind::Disconnected);
}

#[test]
fn shared_receiver_disconnection() {
    let (mut tx, rx) = Mpmc::unbounded();
    drop(rx);
    assert!(!tx.is_connected());
    let err = tx.send(1).unwrap_err();
    assert_eq!(err.kind, SendErrorKind::Disconnected);
    assert_eq!(err.item, 1);
}

#[test]
fn shared_clone_independence() {
    let (mut tx, mut rx) = Mpmc::<u8>::unbounded();
    let tx2 = tx.clone();
    drop(tx);
    assert!(rx.is_connected());
    let rx2 = rx.clone();
    drop(rx2);
    assert!(tx2.is_connected());
    let mut tx = tx2;
    tx.send(5).unwrap();
    assert_eq!(rx.recv().unwrap(), 5);
    drop(tx);
    assert!(!rx.is_connected());
}

#[test]
fn shared_queries() {
    let (tx, rx) = Mpmc::<u8>::bounded(4);
    assert_eq!(tx.capacity(), Some(4));
    assert_eq!(rx.capacity(), Some(4));
    assert!(rx.is_empty());
    assert!(!tx.is_full());

    let (tx, rx) = Mpmc::<u8>::unbounded();
    assert_eq!(tx.capacity(), None);
    assert_eq!(rx.capacity(), None);
    assert!(rx.is_empty());
    assert!(!tx.is_full());
}

#[test]
fn shared_concurrent_multiset() {
    let n_threads: u64 = 4;
    let per_thread: u64 = 250;
    let (tx, mut rx) = Mpmc::<u64>::unbounded();
    crossbeam_utils::thread::scope(|scope| {
        for t in 0..n_threads {
            let mut tx = tx.clone();
            scope.spawn(move |_| {
                for j in 0..per_thread {
                    tx.send(t * per_thread + j).unwrap();
                }
            });
        }
    })
    .unwrap();
    drop(tx);
    let mut got = Vec::new();
    loop {
        match rx.recv() {
            Ok(v) => got.push(v),
            Err(e) => {
                assert_eq!(e.kind, RecvErrorKind::Disconnected);
                break;
            }
        }
    }
    got.sort();
    let expected: Vec<u64> = (0..n_threads * per_thread).collect();
    assert_eq!(got, expected);
}

#[test]
fn shared_concurrent_bounded_multiset() {
    let n_threads: u64 = 4;
    let per_thread: u64 = 100;
    let (tx, rx) = Mpmc::<u64>::bounded(8);
    let mut got = Vec::new();
    crossbeam_utils::thread::scope(|scope| {
        for t in 0..n_threads {
            let mut tx = tx.clone();
            scope.spawn(move |_| {
                for j in 0..per_thread {
                    let mut item = t * per_thread + j;
                    loop {
                        match tx.send(item) {
                            Ok(()) => break,
                            Err(e) => {
                                assert_eq!(e.kind, SendErrorKind::Full);
                                item = e.item;
                            }
                        }
                    }
                }
            });
        }
        drop(tx);
        let mut rx = rx;
        loop {
            match rx.recv() {
                Ok(v) => got.push(v),
                Err(e) => match e.kind {
                    RecvErrorKind::Empty => continue,
                    RecvErrorKind::Disconnected => break,
                },
            }
        }
    })
    .unwrap();
    got.sort();
    let expected: Vec<u64> = (0..n_threads * per_thread).collect();
    assert_eq!(got, expected);
}
