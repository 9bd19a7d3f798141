//! A rendezvous channel that admits one sender at a time.
//!
//! A flag, `ready`, guards a hand-off without a buffer. A sender takes the
//! flag before it hands over; the flag comes back when the receiver lets go
//! of the handle that holds what was handed over, not before.

use std::sync::atomic::{AtomicBool, Ordering};
use std::sync::mpsc::{Receiver, RecvTimeoutError as HandoffTimeoutError, SyncSender};
use std::sync::Arc;
use std::time::{Duration, Instant};
use vstd::prelude::*;
use crate::fanout::share;

verus! {

/// `std::sync::mpsc::SyncSender`.
#[verifier::external_type_specification]
#[verifier::external_body]
#[verifier::reject_recursive_types(T)]
pub struct ExSyncSender<T>(SyncSender<T>);

/// `std::sync::mpsc::Receiver`.
#[verifier::external_type_specification]
#[verifier::external_body]
#[verifier::reject_recursive_types(T)]
pub struct ExHandoffReceiver<T>(Receiver<T>);

/// `std::time::Instant`.
#[verifier::external_type_specification]
#[verifier::external_body]
pub struct ExInstant(Instant);

#[derive(Clone, Copy, Debug, PartialEq, Eq, Structural)]
pub enum SendError {
    /// The receiver is gone.
    Disconnected,
    /// Another sender holds the slot.
    Busy,
}

#[derive(Clone, Copy, Debug, PartialEq, Eq, Structural)]
pub enum RecvError {
    Disconnected,
}

#[derive(Clone, Copy, Debug, PartialEq, Eq, Structural)]
pub enum RecvTimeoutError {
    Timeout,
    Disconnected,
}

/// `std::sync::mpsc::sync_channel` with no buffer. Nothing is claimed of the
/// two halves.
#[verifier::external_body]
fn handoff_channel<T>() -> (halves: (SyncSender<T>, Receiver<T>)) {
    std::sync::mpsc::sync_channel(0)
}

/// `SyncSender::send`: waits until the receiver takes the value, and tells
/// whether it did. Nothing is claimed of which.
#[verifier::external_body]
fn hand_over<T>(tx: &SyncSender<T>, value: T) -> (delivered: bool) {
    tx.send(value).is_ok()
}

/// `Receiver::recv`: waits for a value; none comes once every sender is gone.
#[verifier::external_body]
fn take_over<T>(rx: &Receiver<T>) -> (value: Option<T>) {
    rx.recv().ok()
}

/// `Receiver::recv_timeout`: waits for a value, no longer than `timeout`.
#[verifier::external_body]
fn take_over_within<T>(rx: &Receiver<T>, timeout: Duration) -> (value: Result<T, RecvTimeoutError>) {
    match rx.recv_timeout(timeout) {
        Ok(value) => Ok(value),
        Err(HandoffTimeoutError::Timeout) => Err(RecvTimeoutError::Timeout),
        Err(HandoffTimeoutError::Disconnected) => Err(RecvTimeoutError::Disconnected),
    }
}

/// `Instant::now`.
#[verifier::external_body]
fn now() -> (instant: Instant) {
    Instant::now()
}

/// `Instant::saturating_duration_since`: the time from `from` to `to`, or
/// none at all where `to` is not the later one.
#[verifier::external_body]
fn time_between(from: Instant, to: Instant) -> (span: Duration) {
    to.saturating_duration_since(from)
}

/// `Instant::checked_add`: the instant that lies `offset` after `start`,
/// where the clock can tell it.
#[verifier::external_body]
pub(crate) fn instant_after(start: Instant, offset: Duration) -> (end: Option<Instant>) {
    start.checked_add(offset)
}

/// `AtomicBool::store` of `true`, relaxed.
#[verifier::external_body]
pub(crate) fn raise(flag: &AtomicBool)
    opens_invariants none
    no_unwind
{
    flag.store(true, Ordering::Relaxed)
}

/// Takes the flag down and tells whether it was up. What it was rests on
/// what other threads have done.
pub(crate) fn lower(flag: &AtomicBool) -> (was_up: bool) {
    flag.swap(false, Ordering::Relaxed)
}

/// What one send comes to, and the flag it leaves behind, given the flag it
/// found and whether the receiver was there to take the value. A send that
/// finds the flag down is turned away and hands nothing over. One that finds
/// it up takes it down; it stays down when the value was taken, and goes
/// back up when there was nobody to take it.
pub open spec fn send_model(ready: bool, receiver_alive: bool) -> (Result<(), SendError>, bool) {
    if !ready {
        (Err(SendError::Busy), false)
    } else if receiver_alive {
        (Ok(()), false)
    } else {
        (Err(SendError::Disconnected), true)
    }
}

/// The flag after the receiver lets go of a handle.
pub open spec fn release_model(ready: bool) -> bool {
    true
}

/// How a send ends once the flag has been swapped down: with the answer for
/// the sender, and whether the flag must go back up.
pub fn settle_send(was_ready: bool, delivered: bool) -> (end: (Result<(), SendError>, bool))
    ensures
        end == send_model(was_ready, delivered),
{
    if !was_ready {
        (Err(SendError::Busy), false)
    } else if delivered {
        (Ok(()), false)
    } else {
        (Err(SendError::Disconnected), true)
    }
}

/// Of two sends that find the slot open and a receiver waiting, whichever
/// swaps the flag first is served and the other is turned away as `Busy`.
pub proof fn lemma_one_sender_wins(second_receiver_alive: bool)
    ensures
        send_model(true, true).0 == Ok::<(), SendError>(()),
        send_model(send_model(true, true).1, second_receiver_alive).0 == Err::<(), SendError>(
            SendError::Busy,
        ),
{
}

/// Once the receiver has let go of a handle, the next send to a waiting
/// receiver is served, whatever the flag was before.
pub proof fn lemma_release_reopens(ready: bool)
    ensures
        send_model(release_model(ready), true).0 == Ok::<(), SendError>(()),
{
}

/// A send that finds the slot open but the receiver gone fails as
/// `Disconnected` and leaves the slot open.
pub proof fn lemma_disconnected_leaves_ready()
    ensures
        send_model(true, false) == (Err::<(), SendError>(SendError::Disconnected), true),
{
}

/// The sending end.
#[verifier::reject_recursive_types(T)]
pub struct RendezvousSender<T> {
    ready: Arc<AtomicBool>,
    send: SyncSender<T>,
}

/// The receiving end.
#[verifier::reject_recursive_types(T)]
pub struct RendezvousReceiver<T> {
    ready: Arc<AtomicBool>,
    recv: Receiver<T>,
}

/// What was handed over. The slot opens again when this is dropped.
#[verifier::reject_recursive_types(T)]
pub struct RendezvousHandle<'a, T> {
    value: T,
    recv: &'a RendezvousReceiver<T>,
}

/// A rendezvous channel with its slot open. The flag that the sender takes
/// is the one that the receiver's handles give back.
pub fn rendezvous<T>() -> (ends: (RendezvousSender<T>, RendezvousReceiver<T>))
    ensures
        ends.0.admitted_by(&ends.1),
{
    let ready = Arc::new(AtomicBool::new(true));
    let (send, recv) = handoff_channel();
    (RendezvousSender { ready: share(&ready), send }, RendezvousReceiver { ready, recv })
}

impl<T> RendezvousSender<T> {
    /// This sender takes the flag that a handle of `receiver` gives back
    /// when it is dropped.
    pub closed spec fn admitted_by(&self, receiver: &RendezvousReceiver<T>) -> bool {
        self.ready == receiver.ready
    }
}

impl<T> RendezvousSender<T> {
    /// Takes the slot, then waits until the receiver has taken `value`. The
    /// answer is the one that `settle_send` gives for the flag that the swap
    /// found and for what became of the hand-off.
    pub fn send(&self, value: T) -> (res: Result<(), SendError>) {
        let was_ready = lower(&self.ready);
        if !was_ready {
            return settle_send(false, false).0;
        }
        let delivered = hand_over(&self.send, value);
        let (res, restore) = settle_send(true, delivered);
        if restore {
            raise(&self.ready);
        }
        res
    }
}

impl<T> RendezvousReceiver<T> {
    /// Waits for the next value handed over.
    pub fn recv<'a>(&'a self) -> (res: Result<RendezvousHandle<'a, T>, RecvError>)
        ensures
            res matches Ok(handle) ==> handle.origin() == self,
    {
        match take_over(&self.recv) {
            Some(value) => Ok(RendezvousHandle { value, recv: self }),
            None => Err(RecvError::Disconnected),
        }
    }

    /// Waits for the next value handed over, but not beyond `deadline`. A
    /// deadline that has passed still lets a sender through that is already
    /// waiting.
    pub fn recv_deadline<'a>(&'a self, deadline: Instant) -> (res: Result<
        RendezvousHandle<'a, T>,
        RecvTimeoutError,
    >)
        ensures
            res matches Ok(handle) ==> handle.origin() == self,
    {
        let remaining = time_between(now(), deadline);
        match take_over_within(&self.recv, remaining) {
            Ok(value) => Ok(RendezvousHandle { value, recv: self }),
            Err(e) => Err(e),
        }
    }
}

impl<'a, T> RendezvousHandle<'a, T> {
    /// What the handle holds.
    pub closed spec fn held(&self) -> T {
        self.value
    }

    /// The receiver whose slot the handle keeps taken.
    pub closed spec fn origin(&self) -> &'a RendezvousReceiver<T> {
        self.recv
    }

    /// What was handed over.
    pub fn get(&self) -> (value: &T)
        ensures
            *value == self.held(),
    {
        &self.value
    }

    /// What was handed over, to change it in place.
    pub fn get_mut(&mut self) -> (value: &mut T)
        ensures
            *value == old(self).held(),
            final(self).held() == *final(value),
            final(self).origin() == old(self).origin(),
    {
        &mut self.value
    }
}

/// Dropping the handle puts the flag up: the slot is open to the next sender.
impl<'a, T> Drop for RendezvousHandle<'a, T> {
    fn drop(&mut self)
        opens_invariants none
        no_unwind
    {
        raise(&self.recv.ready);
    }
}

} // verus!
