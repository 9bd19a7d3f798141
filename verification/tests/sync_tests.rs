use edicast::sync::{rendezvous, settle_send, RecvError, RecvTimeoutError, SendError};
use std::time::{Duration, Instant};

#[test]
fn a_value_is_handed_over() {
    let (tx, rx) = rendezvous::<u32>();
    crossbeam::scope(|scope| {
        let sender = scope.spawn(|_| tx.send(5));
        let handle = rx.recv().ok().unwrap();
        assert_eq!(*handle.get(), 5);
        assert_eq!(sender.join().unwrap(), Ok(()));
    })
    .unwrap();
}

#[test]
fn the_slot_stays_taken_while_the_handle_lives() {
    let (tx, rx) = rendezvous::<u32>();
    crossbeam::scope(|scope| {
        let sender = scope.spawn(|_| tx.send(1));
        let handle = rx.recv().ok().unwrap();
        assert_eq!(sender.join().unwrap(), Ok(()));
        // the hand-off is over, but the receiver still services it
        assert_eq!(tx.send(2), Err(SendError::Busy));
        assert_eq!(tx.send(3), Err(SendError::Busy));
        drop(handle);
    })
    .unwrap();
}

#[test]
fn letting_go_of_the_handle_reopens_the_slot() {
    let (tx, rx) = rendezvous::<u32>();
    crossbeam::scope(|scope| {
        let sender = scope.spawn(|_| tx.send(1));
        let handle = rx.recv().ok().unwrap();
        assert_eq!(sender.join().unwrap(), Ok(()));
        drop(handle);
        let sender = scope.spawn(|_| tx.send(2));
        let handle = rx.recv().ok().unwrap();
        assert_eq!(*handle.get(), 2);
        assert_eq!(sender.join().unwrap(), Ok(()));
    })
    .unwrap();
}

#[test]
fn of_two_senders_one_is_served_and_one_is_busy() {
    let (tx, rx) = rendezvous::<u32>();
    crossbeam::scope(|scope| {
        let first = scope.spawn(|_| tx.send(1));
        let second = scope.spawn(|_| tx.send(2));
        let handle = rx.recv().ok().unwrap();
        let mut results = vec![first.join().unwrap(), second.join().unwrap()];
        results.sort_by_key(|r| r.is_err());
        assert_eq!(results, vec![Ok(()), Err(SendError::Busy)]);
        drop(handle);
    })
    .unwrap();
}

#[test]
fn sending_to_nobody_is_disconnected_and_leaves_the_slot_open() {
    let (tx, rx) = rendezvous::<u32>();
    drop(rx);
    assert_eq!(tx.send(1), Err(SendError::Disconnected));
    // were the slot left taken, this would be busy
    assert_eq!(tx.send(2), Err(SendError::Disconnected));
}

#[test]
fn receiving_from_nobody_is_disconnected() {
    let (tx, rx) = rendezvous::<u32>();
    drop(tx);
    assert!(matches!(rx.recv(), Err(RecvError::Disconnected)));
    let deadline = Instant::now() + Duration::from_millis(50);
    assert!(matches!(rx.recv_deadline(deadline), Err(RecvTimeoutError::Disconnected)));
}

#[test]
fn a_deadline_without_a_sender_times_out() {
    let (_tx, rx) = rendezvous::<u32>();
    let start = Instant::now();
    let deadline = start + Duration::from_millis(40);
    assert!(matches!(rx.recv_deadline(deadline), Err(RecvTimeoutError::Timeout)));
    assert!(start.elapsed() >= Duration::from_millis(40));
    // a deadline in the past times out at once
    assert!(matches!(rx.recv_deadline(start), Err(RecvTimeoutError::Timeout)));
}

#[test]
fn a_sender_gets_through_before_the_deadline() {
    let (tx, rx) = rendezvous::<u32>();
    crossbeam::scope(|scope| {
        let sender = scope.spawn(|_| tx.send(9));
        let deadline = Instant::now() + Duration::from_secs(5);
        let mut handle = rx.recv_deadline(deadline).ok().unwrap();
        assert_eq!(*handle.get(), 9);
        *handle.get_mut() = 10;
        assert_eq!(*handle.get(), 10);
        assert_eq!(sender.join().unwrap(), Ok(()));
    })
    .unwrap();
}

#[test]
fn a_send_settles_by_flag_and_hand_off() {
    assert_eq!(settle_send(false, false), (Err(SendError::Busy), false));
    assert_eq!(settle_send(false, true), (Err(SendError::Busy), false));
    assert_eq!(settle_send(true, true), (Ok(()), false));
    assert_eq!(settle_send(true, false), (Err(SendError::Disconnected), true));
}
