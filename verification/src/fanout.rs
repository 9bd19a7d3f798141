//! A one-to-many broadcast channel that drops rather than blocks.
//!
//! Every subscriber has a bounded queue of its own. Publishing offers the
//! value to each queue in turn without waiting: a full queue misses the
//! value, which its subscriber is told, and a queue whose receiver is gone
//! is forgotten.

use crossbeam_channel::{Receiver, Sender, TryRecvError as ChannelTryRecvError, TrySendError};
use std::sync::atomic::AtomicBool;
use std::sync::{Arc, RwLock, RwLockWriteGuard};
use vstd::prelude::*;
use crate::sync::{lower, raise};

verus! {

/// Slots in each subscriber's queue, unless the broadcast is made with
/// another number.
pub const BUFFER_SIZE: usize = 1;

/// The most slots that a queue is made with.
pub const MAX_BUFFER_SIZE: usize = 65536;

/// `crossbeam_channel::Sender`, the sending half of a subscriber's queue.
#[verifier::external_type_specification]
#[verifier::external_body]
#[verifier::reject_recursive_types(T)]
pub struct ExSender<T>(Sender<T>);

/// `crossbeam_channel::Receiver`, the receiving half of a subscriber's queue.
#[verifier::external_type_specification]
#[verifier::external_body]
#[verifier::reject_recursive_types(T)]
pub struct ExReceiver<T>(Receiver<T>);

/// `std::sync::RwLock`.
#[verifier::external_type_specification]
#[verifier::external_body]
#[verifier::reject_recursive_types(T)]
pub struct ExRwLock<T: ?Sized>(RwLock<T>);

/// `std::sync::RwLockWriteGuard`.
#[verifier::external_type_specification]
#[verifier::external_body]
#[verifier::reject_recursive_types(T)]
pub struct ExRwLockWriteGuard<'a, T: ?Sized + 'a>(RwLockWriteGuard<'a, T>);

/// One subscriber, as the publisher holds it: the sending half of its queue,
/// and the flag that goes up when it misses a value.
#[verifier::reject_recursive_types(T)]
pub struct Subscriber<T> {
    tx: Sender<T>,
    missed: Arc<AtomicBool>,
}

/// What became of a value offered to one subscriber.
#[derive(Clone, Copy, Debug, PartialEq, Eq, Structural)]
pub enum Offer {
    /// It is in the subscriber's queue.
    Delivered,
    /// The queue was full: the subscriber misses this value.
    Full,
    /// The subscriber is gone.
    Disconnected,
}

#[derive(Clone, Copy, Debug, PartialEq, Eq, Structural)]
pub enum SubscribeError {
    NoPublisher,
}

/// Why a blocking receive gave no value.
#[derive(Clone, Copy, Debug, PartialEq, Eq, Structural)]
pub enum RecvError {
    /// The publisher is gone and the queue is empty.
    Closed,
}

/// Why a receive that does not wait gave no value.
#[derive(Clone, Copy, Debug, PartialEq, Eq, Structural)]
pub enum TryRecvError {
    /// Nothing is queued right now.
    Empty,
    /// The publisher is gone and the queue is empty.
    Closed,
}

/// `crossbeam_channel::bounded`: a fresh queue of `capacity` slots. It gives
/// up on a queue that is too large to set up, which the bound stays far
/// below. Nothing is claimed of the two halves.
#[verifier::external_body]
pub(crate) fn bounded_queue<T>(capacity: usize) -> (halves: (Sender<T>, Receiver<T>))
    requires
        capacity <= MAX_BUFFER_SIZE,
{
    crossbeam_channel::bounded(capacity)
}

/// `Sender::try_send`: offers without waiting. Which outcome comes back rests
/// on what the receiving side has done, so nothing is claimed of it.
#[verifier::external_body]
fn offer<T>(tx: &Sender<T>, value: T) -> (outcome: Offer) {
    match tx.try_send(value) {
        Ok(()) => Offer::Delivered,
        Err(TrySendError::Full(_)) => Offer::Full,
        Err(TrySendError::Disconnected(_)) => Offer::Disconnected,
    }
}

/// `Sender::send`: waits until the value is queued or taken, and tells
/// whether it was. Nothing is claimed of which.
#[verifier::external_body]
pub(crate) fn send_waiting<T>(tx: &Sender<T>, value: T) -> (sent: bool) {
    tx.send(value).is_ok()
}

/// `Receiver::recv`: waits for the next value. Nothing is claimed of what
/// comes back.
#[verifier::external_body]
pub(crate) fn wait_next<T>(rx: &Receiver<T>) -> (next: Result<T, RecvError>) {
    match rx.recv() {
        Ok(value) => Ok(value),
        Err(_) => Err(RecvError::Closed),
    }
}

/// `Receiver::try_recv`: the next value if one is queued. Nothing is claimed
/// of what comes back.
#[verifier::external_body]
fn poll_next<T>(rx: &Receiver<T>) -> (next: Result<T, TryRecvError>) {
    match rx.try_recv() {
        Ok(value) => Ok(value),
        Err(ChannelTryRecvError::Empty) => Err(TryRecvError::Empty),
        Err(ChannelTryRecvError::Disconnected) => Err(TryRecvError::Closed),
    }
}

/// `RwLock::new`.
#[verifier::external_body]
fn new_lock<T>(value: T) -> (lock: RwLock<T>) {
    RwLock::new(value)
}

/// `RwLock::write`, going on where an earlier holder panicked. Other threads
/// fill the lock, so nothing is claimed of what it guards. No function here
/// asks for the lock while it holds it.
#[verifier::external_body]
fn write_lock<'a, T>(lock: &'a RwLock<T>) -> (guard: RwLockWriteGuard<'a, T>)
    opens_invariants none
    no_unwind
{
    lock.write().unwrap_or_else(|poisoned| poisoned.into_inner())
}

/// `RwLockWriteGuard::deref_mut`: the value that the guard holds locked.
#[verifier::external_body]
fn guarded<'a, 'b, T>(guard: &'b mut RwLockWriteGuard<'a, T>) -> (value: &'b mut T)
    opens_invariants none
    no_unwind
{
    &mut *guard
}

/// `Arc::clone`: another handle to the same value.
#[verifier::external_body]
pub(crate) fn share<T>(handle: &Arc<T>) -> (other: Arc<T>)
    ensures
        other == *handle,
{
    Arc::clone(handle)
}

/// The subscribers that stay after one publish: all but those whose offer
/// found them gone, in their old order.
pub open spec fn survivors<T>(txs: Seq<Subscriber<T>>, offers: Seq<Offer>) -> Seq<
    Subscriber<T>,
>
    decreases txs.len(),
{
    if txs.len() == 0 || offers.len() == 0 {
        Seq::empty()
    } else {
        let rest = survivors(txs.drop_last(), offers.drop_last());
        if offers.last() is Disconnected {
            rest
        } else {
            rest.push(txs.last())
        }
    }
}

/// The subscriber set after a subscription is asked for, and the answer:
/// with the publisher gone there is no set, and the answer is `NoPublisher`;
/// else the new subscriber joins at the end.
pub open spec fn registered<T>(slot: Option<Seq<Subscriber<T>>>, tx: Subscriber<T>) -> (
    Option<Seq<Subscriber<T>>>,
    Result<(), SubscribeError>,
) {
    match slot {
        Some(txs) => (Some(txs.push(tx)), Ok(())),
        None => (None, Err(SubscribeError::NoPublisher)),
    }
}

/// The subscribers that a slot holds, if the publisher is still there.
pub open spec fn slot_view<T>(slot: Option<Vec<Subscriber<T>>>) -> Option<Seq<Subscriber<T>>> {
    match slot {
        Some(txs) => Some(txs@),
        None => None,
    }
}

/// A fresh subscriber with an empty queue of `capacity` slots, and the
/// receiver that goes with it: the one that is told what this subscriber
/// misses.
pub fn subscription<T>(capacity: usize) -> (halves: (Subscriber<T>, LiveReceiver<T>))
    requires
        capacity <= MAX_BUFFER_SIZE,
    ensures
        halves.1.capacity() == capacity,
        halves.1.told_by(halves.0),
{
    let (tx, rx) = bounded_queue(capacity);
    let missed = Arc::new(AtomicBool::new(false));
    (Subscriber { tx, missed: share(&missed) }, LiveReceiver { rx, missed, capacity })
}

/// Tells a subscriber that it has missed a value, where its queue was full.
fn note_missed<T>(subscriber: &Subscriber<T>, outcome: Offer) {
    match outcome {
        Offer::Full => raise(&subscriber.missed),
        _ => {},
    }
}

/// Puts a subscriber back unless its offer found it gone.
pub fn keep_alive<T>(txs: &mut Vec<Subscriber<T>>, tx: Subscriber<T>, outcome: Offer)
    ensures
        final(txs)@ == if outcome is Disconnected {
            old(txs)@
        } else {
            old(txs)@.push(tx)
        },
{
    match outcome {
        Offer::Disconnected => {},
        _ => {
            txs.push(tx);
        },
    }
}

/// Offers a copy of `data` to every subscriber once, in order, and forgets
/// the subscribers that are gone. The outcomes come back in the same order.
pub fn publish_to<T: Clone>(txs: &mut Vec<Subscriber<T>>, data: T) -> (offers: Vec<Offer>)
    ensures
        offers@.len() == old(txs)@.len(),
        final(txs)@ == survivors(old(txs)@, offers@),
{
    let count = txs.len();
    let mut pending: Vec<Subscriber<T>> = Vec::new();
    while txs.len() > 0
        invariant
            count == old(txs)@.len(),
            pending@.len() + txs@.len() == count,
            txs@ == old(txs)@.take(txs@.len() as int),
            forall|j: int| 0 <= j < pending@.len() ==> pending@[j] == old(txs)@[count - 1 - j],
        decreases txs@.len(),
    {
        let tx = txs.pop().unwrap();
        assert(txs@ =~= old(txs)@.take(txs@.len() as int));
        pending.push(tx);
    }
    let mut offers: Vec<Offer> = Vec::new();
    assert(txs@ =~= survivors(old(txs)@.take(0), offers@));
    while pending.len() > 0
        invariant
            count == old(txs)@.len(),
            pending@.len() + offers@.len() == count,
            forall|j: int| 0 <= j < pending@.len() ==> pending@[j] == old(txs)@[count - 1 - j],
            txs@ == survivors(old(txs)@.take(offers@.len() as int), offers@),
        decreases pending@.len(),
    {
        let ghost done = offers@.len() as int;
        let ghost before = offers@;
        let tx = pending.pop().unwrap();
        assert(tx == old(txs)@[done]);
        let outcome = offer(&tx.tx, data.clone());
        note_missed(&tx, outcome);
        offers.push(outcome);
        proof {
            assert(old(txs)@.take(done + 1).drop_last() =~= old(txs)@.take(done));
            assert(offers@.drop_last() =~= before);
            assert(old(txs)@.take(done + 1).last() == tx);
        }
        keep_alive(txs, tx, outcome);
    }
    assert(old(txs)@.take(count as int) =~= old(txs)@);
    offers
}

/// Adds a subscriber to the set, unless the publisher is gone.
pub fn register<T>(slot: &mut Option<Vec<Subscriber<T>>>, tx: Subscriber<T>) -> (res: Result<
    (),
    SubscribeError,
>)
    ensures
        (slot_view(*final(slot)), res) == registered(slot_view(*old(slot)), tx),
{
    match slot {
        Some(txs) => {
            txs.push(tx);
            Ok(())
        },
        None => Err(SubscribeError::NoPublisher),
    }
}

/// Ends the broadcast: the subscriber set is dropped, and with it every
/// sending half, so that each receiver sees the end once its queue is empty.
pub fn close<T>(slot: &mut Option<Vec<Subscriber<T>>>)
    ensures
        slot_view(*final(slot)) == None::<Seq<Subscriber<T>>>,
    opens_invariants none
    no_unwind
{
    *slot = None;
}

/// Once the broadcast has ended, a subscription is refused with
/// `NoPublisher`, and the broadcast stays ended.
pub proof fn lemma_subscribe_after_close<T>(tx: Subscriber<T>)
    ensures
        registered(None, tx) == (
            None::<Seq<Subscriber<T>>>,
            Err::<(), SubscribeError>(SubscribeError::NoPublisher),
        ),
{
}

/// A subscriber that is never found gone stays subscribed, whatever else
/// happens to its offers and to the other subscribers.
pub proof fn lemma_survivors_keep<T>(txs: Seq<Subscriber<T>>, offers: Seq<Offer>, i: int)
    requires
        txs.len() == offers.len(),
        0 <= i < txs.len(),
        !(offers[i] is Disconnected),
    ensures
        survivors(txs, offers).contains(txs[i]),
    decreases txs.len(),
{
    let rest = survivors(txs.drop_last(), offers.drop_last());
    if i == txs.len() - 1 {
        assert(rest.push(txs.last()).last() == txs[i]);
    } else {
        lemma_survivors_keep(txs.drop_last(), offers.drop_last(), i);
        let at = choose|k: int| 0 <= k < rest.len() && rest[k] == txs[i];
        if !(offers.last() is Disconnected) {
            assert(rest.push(txs.last())[at] == txs[i]);
        }
    }
}

/// `part` can be had from `whole` by leaving values out, the rest staying in
/// their order.
pub open spec fn is_subsequence<T>(part: Seq<T>, whole: Seq<T>) -> bool
    decreases whole.len(),
{
    if part.len() == 0 {
        true
    } else if whole.len() == 0 {
        false
    } else {
        ||| (part.last() == whole.last() && is_subsequence(part.drop_last(), whole.drop_last()))
        ||| is_subsequence(part, whole.drop_last())
    }
}

/// What one subscriber's queue took in over a run of publishes: of the values
/// published, in order, those whose offer to that subscriber was delivered.
pub open spec fn taken_in<T>(published: Seq<T>, offers: Seq<Offer>) -> Seq<T>
    decreases published.len(),
{
    if published.len() == 0 || offers.len() == 0 {
        Seq::empty()
    } else {
        let rest = taken_in(published.drop_last(), offers.drop_last());
        if offers.last() is Delivered {
            rest.push(published.last())
        } else {
            rest
        }
    }
}

/// Whatever became of the single offers, what a subscriber's queue took in
/// is a subsequence of what was published, in the order of publishing.
pub proof fn lemma_taken_in_is_subsequence<T>(published: Seq<T>, offers: Seq<Offer>)
    requires
        published.len() == offers.len(),
    ensures
        is_subsequence(taken_in(published, offers), published),
    decreases published.len(),
{
    if published.len() > 0 {
        lemma_taken_in_is_subsequence(published.drop_last(), offers.drop_last());
        let rest = taken_in(published.drop_last(), offers.drop_last());
        if offers.last() is Delivered {
            assert(rest.push(published.last()).drop_last() =~= rest);
        }
    }
}

/// A subscriber whose queue is full misses the value and nothing else: it
/// stays subscribed, and so does every other subscriber that is not gone.
pub proof fn lemma_full_queue_costs_nobody<T>(txs: Seq<Subscriber<T>>, offers: Seq<Offer>, i: int)
    requires
        txs.len() == offers.len(),
        0 <= i < txs.len(),
        offers[i] is Full,
    ensures
        survivors(txs, offers).contains(txs[i]),
        forall|j: int|
            0 <= j < txs.len() && !(offers[j] is Disconnected) ==> survivors(txs, offers).contains(
                #[trigger] txs[j],
            ),
{
    lemma_survivors_keep(txs, offers, i);
    assert forall|j: int| 0 <= j < txs.len() && !(offers[j] is Disconnected) implies survivors(
        txs,
        offers,
    ).contains(#[trigger] txs[j]) by {
        lemma_survivors_keep(txs, offers, j);
    }
}

/// The state that publisher and subscribers share.
#[verifier::reject_recursive_types(T)]
pub struct LiveChannel<T> {
    capacity: usize,
    txs: RwLock<Option<Vec<Subscriber<T>>>>,
}

/// The publishing end. Dropping it ends the broadcast.
#[verifier::reject_recursive_types(T)]
pub struct LivePublisher<T> {
    chan: Arc<LiveChannel<T>>,
}

/// The end from which subscriptions are taken.
#[verifier::reject_recursive_types(T)]
pub struct LiveSubscriber<T> {
    chan: Arc<LiveChannel<T>>,
}

/// One subscription.
#[verifier::reject_recursive_types(T)]
pub struct LiveReceiver<T> {
    rx: Receiver<T>,
    missed: Arc<AtomicBool>,
    capacity: usize,
}

/// A broadcast with no subscribers yet, whose queues will hold one value.
pub fn live_channel<T>() -> (ends: (LivePublisher<T>, LiveSubscriber<T>))
    ensures
        ends.1.capacity() == BUFFER_SIZE,
{
    live_channel_with(BUFFER_SIZE)
}

/// The number of slots that a queue gets where `capacity` are asked for.
pub open spec fn queue_slots(capacity: usize) -> usize {
    if capacity <= MAX_BUFFER_SIZE {
        capacity
    } else {
        MAX_BUFFER_SIZE
    }
}

fn slots(capacity: usize) -> (granted: usize)
    ensures
        granted == queue_slots(capacity),
{
    if capacity <= MAX_BUFFER_SIZE {
        capacity
    } else {
        MAX_BUFFER_SIZE
    }
}

/// A broadcast with no subscribers yet, whose queues will hold `capacity`
/// values each, or as many as a queue is made with at most.
pub fn live_channel_with<T>(capacity: usize) -> (ends: (LivePublisher<T>, LiveSubscriber<T>))
    ensures
        ends.1.capacity() == queue_slots(capacity),
{
    let chan = Arc::new(
        LiveChannel { capacity: slots(capacity), txs: new_lock(Some(Vec::new())) },
    );
    let publisher = LivePublisher { chan: share(&chan) };
    let subscriber = LiveSubscriber { chan };
    (publisher, subscriber)
}

impl<T: Clone> LivePublisher<T> {
    /// Offers `data` to every subscriber without waiting for any of them,
    /// as `publish_to` does, while no subscription can be added.
    pub fn publish(&self, data: T) {
        let mut guard = write_lock(&self.chan.txs);
        let slot = guarded(&mut guard);
        match slot {
            Some(txs) => {
                let _ = publish_to(txs, data);
            },
            None => {},
        }
    }
}

/// Dropping the publisher ends the broadcast, as `close` does.
impl<T> Drop for LivePublisher<T> {
    fn drop(&mut self)
        opens_invariants none
        no_unwind
    {
        let mut guard = write_lock(&self.chan.txs);
        let slot = guarded(&mut guard);
        close(slot);
    }
}

impl<T> LiveSubscriber<T> {
    /// Slots in the queue of each subscription.
    pub closed spec fn capacity(&self) -> usize {
        self.chan.capacity
    }
}

impl<T: Clone> LiveSubscriber<T> {
    /// A new subscription with an empty queue of its own, of as many slots
    /// as the broadcast was made with. It is granted or refused as
    /// `register` says for the subscriber set of that moment.
    pub fn subscribe(&self) -> (res: Result<LiveReceiver<T>, SubscribeError>)
        ensures
            res matches Ok(receiver) ==> receiver.capacity() == queue_slots(self.capacity()),
    {
        let (subscriber, receiver) = subscription(slots(self.chan.capacity));
        let mut guard = write_lock(&self.chan.txs);
        let slot = guarded(&mut guard);
        match register(slot, subscriber) {
            Ok(()) => Ok(receiver),
            Err(e) => Err(e),
        }
    }
}

impl<T> LiveReceiver<T> {
    /// Slots in the queue of this subscription.
    pub closed spec fn capacity(&self) -> usize {
        self.capacity
    }

    /// The flag that goes up when `subscriber` misses a value is the one
    /// that this receiver takes down.
    pub closed spec fn told_by(&self, subscriber: Subscriber<T>) -> bool {
        self.missed == subscriber.missed
    }

    /// Slots in the queue of this subscription.
    pub fn slots(&self) -> (slots: usize)
        ensures
            slots == self.capacity(),
    {
        self.capacity
    }

    /// Waits for the next value. The end is reported once the publisher is
    /// gone and the queue is empty.
    pub fn recv(&self) -> (next: Result<T, RecvError>) {
        wait_next(&self.rx)
    }

    /// The next value, if one is queued; else whether the broadcast has
    /// ended or the queue is merely empty.
    pub fn try_recv(&self) -> (next: Result<T, TryRecvError>) {
        poll_next(&self.rx)
    }

    /// Whether a value was missed since this was last asked: the queue was
    /// full when the value was published.
    pub fn take_missed(&self) -> (missed: bool) {
        lower(&self.missed)
    }
}

} // verus!
