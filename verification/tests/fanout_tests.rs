use edicast::fanout::{
    close, keep_alive, live_channel, live_channel_with, publish_to, register, subscription, Offer,
    RecvError, SubscribeError, TryRecvError,
};

#[test]
fn every_subscriber_gets_what_is_published() {
    let (publisher, subscriber) = live_channel::<u32>();
    let first = subscriber.subscribe().ok().unwrap();
    let second = subscriber.subscribe().ok().unwrap();
    publisher.publish(7);
    assert_eq!(first.recv(), Ok(7));
    assert_eq!(second.recv(), Ok(7));
    publisher.publish(8);
    assert_eq!(first.try_recv(), Ok(8));
    assert_eq!(second.try_recv(), Ok(8));
}

#[test]
fn a_subscriber_sees_a_subsequence_in_publish_order() {
    let (publisher, subscriber) = live_channel::<u32>();
    let rx = subscriber.subscribe().ok().unwrap();
    let mut seen = Vec::new();
    // the queue holds one value: of 1, 2, 3 only the first gets in
    publisher.publish(1);
    publisher.publish(2);
    publisher.publish(3);
    seen.push(rx.recv().ok().unwrap());
    assert_eq!(rx.try_recv(), Err(TryRecvError::Empty));
    publisher.publish(4);
    seen.push(rx.recv().ok().unwrap());
    publisher.publish(5);
    publisher.publish(6);
    seen.push(rx.recv().ok().unwrap());
    assert_eq!(seen, vec![1, 4, 5]);
}

#[test]
fn a_full_queue_does_not_hold_up_the_others() {
    let (publisher, subscriber) = live_channel::<u32>();
    let slow = subscriber.subscribe().ok().unwrap();
    let quick = subscriber.subscribe().ok().unwrap();
    for value in 0..100 {
        publisher.publish(value);
        assert_eq!(quick.recv(), Ok(value));
    }
    // the slow one still holds the first value, and nothing else
    assert_eq!(slow.try_recv(), Ok(0));
    assert_eq!(slow.try_recv(), Err(TryRecvError::Empty));
}

#[test]
fn subscribing_after_the_publisher_is_gone_fails() {
    let (publisher, subscriber) = live_channel::<u32>();
    drop(publisher);
    assert!(matches!(subscriber.subscribe(), Err(SubscribeError::NoPublisher)));
}

#[test]
fn receivers_drain_and_then_see_the_end() {
    let (publisher, subscriber) = live_channel::<u32>();
    let rx = subscriber.subscribe().ok().unwrap();
    publisher.publish(3);
    drop(publisher);
    assert_eq!(rx.recv(), Ok(3));
    assert_eq!(rx.recv(), Err(RecvError::Closed));
    assert_eq!(rx.try_recv(), Err(TryRecvError::Closed));
}

#[test]
fn an_empty_queue_is_not_the_end() {
    let (publisher, subscriber) = live_channel::<u32>();
    let rx = subscriber.subscribe().ok().unwrap();
    assert_eq!(rx.try_recv(), Err(TryRecvError::Empty));
    publisher.publish(1);
    assert_eq!(rx.try_recv(), Ok(1));
    assert_eq!(rx.try_recv(), Err(TryRecvError::Empty));
}

#[test]
fn publishing_without_subscribers_is_fine() {
    let (publisher, subscriber) = live_channel::<u32>();
    publisher.publish(1);
    let rx = subscriber.subscribe().ok().unwrap();
    assert_eq!(rx.try_recv(), Err(TryRecvError::Empty));
}

#[test]
fn publish_reports_each_offer_and_forgets_the_gone() {
    let (full, rx_full) = subscription::<u32>(1);
    let (gone, rx_gone) = subscription::<u32>(1);
    let (free, rx_free) = subscription::<u32>(1);
    let mut txs = vec![full];
    assert_eq!(publish_to(&mut txs, 99), vec![Offer::Delivered]);
    drop(rx_gone);
    txs.push(gone);
    txs.push(free);
    let offers = publish_to(&mut txs, 5);
    assert_eq!(offers, vec![Offer::Full, Offer::Disconnected, Offer::Delivered]);
    assert_eq!(txs.len(), 2);
    assert_eq!(rx_full.try_recv(), Ok(99));
    assert_eq!(rx_free.try_recv(), Ok(5));
    // the two that stayed are the first and the last, in that order
    assert_eq!(publish_to(&mut txs, 6), vec![Offer::Delivered, Offer::Delivered]);
    drop(rx_full);
    assert_eq!(publish_to(&mut txs, 7), vec![Offer::Disconnected, Offer::Full]);
    assert_eq!(rx_free.try_recv(), Ok(6));
}

#[test]
fn publish_forgets_all_that_are_gone_at_once() {
    let mut txs = Vec::new();
    let mut kept = Vec::new();
    for i in 0..6 {
        let (tx, rx) = subscription::<u32>(1);
        txs.push(tx);
        if i % 2 == 0 {
            kept.push(rx);
        }
    }
    let offers = publish_to(&mut txs, 1);
    assert_eq!(
        offers,
        vec![
            Offer::Delivered,
            Offer::Disconnected,
            Offer::Delivered,
            Offer::Disconnected,
            Offer::Delivered,
            Offer::Disconnected,
        ]
    );
    assert_eq!(txs.len(), 3);
    for rx in &kept {
        assert_eq!(rx.try_recv(), Ok(1));
    }
    let again = publish_to(&mut txs, 2);
    assert_eq!(again, vec![Offer::Delivered, Offer::Delivered, Offer::Delivered]);
}

#[test]
fn keep_alive_drops_only_the_disconnected() {
    let mut txs = Vec::new();
    let (a, _rx_a) = subscription::<u32>(1);
    let (b, _rx_b) = subscription::<u32>(1);
    let (c, _rx_c) = subscription::<u32>(1);
    keep_alive(&mut txs, a, Offer::Delivered);
    keep_alive(&mut txs, b, Offer::Full);
    keep_alive(&mut txs, c, Offer::Disconnected);
    assert_eq!(txs.len(), 2);
}

#[test]
fn register_joins_a_live_set_only() {
    let (first, _rx_first) = subscription::<u32>(1);
    let (second, _rx_second) = subscription::<u32>(1);
    let mut live = Some(Vec::new());
    assert_eq!(register(&mut live, first), Ok(()));
    assert_eq!(live.as_ref().map(|txs| txs.len()), Some(1));
    close(&mut live);
    assert!(live.is_none());
    assert_eq!(register(&mut live, second), Err(SubscribeError::NoPublisher));
    assert!(live.is_none());
}

#[test]
fn a_subscriber_is_told_that_it_missed_a_value() {
    let (publisher, subscriber) = live_channel::<u32>();
    let slow = subscriber.subscribe().ok().unwrap();
    let quick = subscriber.subscribe().ok().unwrap();
    publisher.publish(1);
    assert_eq!(quick.try_recv(), Ok(1));
    assert!(!slow.take_missed());
    publisher.publish(2);
    assert_eq!(quick.try_recv(), Ok(2));
    assert!(slow.take_missed());
    assert!(!quick.take_missed());
    // asking takes the flag down again
    assert!(!slow.take_missed());
    assert_eq!(slow.try_recv(), Ok(1));
}

#[test]
fn queues_hold_as_many_values_as_the_broadcast_was_made_with() {
    let (publisher, subscriber) = live_channel_with::<u32>(3);
    let rx = subscriber.subscribe().ok().unwrap();
    for value in 0..5 {
        publisher.publish(value);
    }
    assert_eq!(rx.try_recv(), Ok(0));
    assert_eq!(rx.try_recv(), Ok(1));
    assert_eq!(rx.try_recv(), Ok(2));
    assert_eq!(rx.try_recv(), Err(TryRecvError::Empty));
    assert!(rx.take_missed());
}

#[test]
fn a_broadcast_asked_for_more_slots_than_a_queue_has_still_works() {
    let (publisher, subscriber) = live_channel_with::<u32>(usize::MAX);
    let rx = subscriber.subscribe().ok().unwrap();
    publisher.publish(1);
    publisher.publish(2);
    assert_eq!(rx.try_recv(), Ok(1));
    assert_eq!(rx.try_recv(), Ok(2));
    assert!(!rx.take_missed());
}

#[test]
fn a_subscription_knows_the_slots_of_its_queue() {
    let (_subscriber, receiver) = subscription::<u32>(3);
    assert_eq!(receiver.slots(), 3);
    let (_publisher, subscriber) = live_channel::<u32>();
    assert_eq!(subscriber.subscribe().ok().unwrap().slots(), 1);
    let (_publisher, subscriber) = live_channel_with::<u32>(8);
    assert_eq!(subscriber.subscribe().ok().unwrap().slots(), 8);
    let (_publisher, subscriber) = live_channel_with::<u32>(usize::MAX);
    assert_eq!(subscriber.subscribe().ok().unwrap().slots(), 65536);
}
