//! The source worker: what it does while offline, how a broadcaster is
//! admitted to it, and the steps of the session that follows.

use crossbeam_channel::{Receiver, Sender};
use std::sync::Arc;
use std::time::{Duration, Instant};
use vstd::prelude::*;
use crate::audio::decode::{PcmRead, PcmReadError};
use crate::audio::{duration_nanos, PcmData};
use crate::config::{NamedSource, OfflineBehaviour, SourceConfig};
use crate::fanout::{
    bounded_queue, live_channel, send_waiting, wait_next, LivePublisher, LiveReceiver,
    LiveSubscriber,
};
use crate::session::{Action, Session};
use crate::sync::{
    instant_after, rendezvous, RecvTimeoutError, RendezvousHandle, RendezvousReceiver,
    RendezvousSender, SendError,
};

verus! {

/// Why a broadcaster could not be admitted.
#[derive(Clone, Copy, Debug, PartialEq, Eq, Structural)]
pub enum ConnectSourceError {
    /// A broadcaster is live on the source.
    AlreadyConnected,
    /// No source bears the name.
    NoSuchSource,
    /// The source's worker has left; this should never be seen.
    WorkerGone,
}

/// What woke an offline worker.
#[derive(Clone, Copy, Debug, PartialEq, Eq, Structural)]
pub enum Wakeup {
    /// A broadcaster was handed over.
    Admitted,
    /// The deadline passed with no broadcaster.
    Timeout,
    /// Nobody can hand over a broadcaster any more.
    Disconnected,
}

/// What an offline worker does on waking.
#[derive(Clone, Copy, Debug, PartialEq, Eq, Structural)]
pub enum OfflineAction {
    /// Go live: run the session to its end, then start offline afresh.
    RunSession,
    /// Publish one frame of silence and wait on.
    PublishSilence,
    /// Wait on.
    Idle,
    /// Leave.
    Exit,
}

/// A broadcaster that was handed over is served, whatever the source does
/// while offline, and a worker that nobody can reach any more leaves. When
/// the deadline passes, a silent source publishes silence; an inactive one
/// has no deadline, and just waits on.
pub open spec fn offline_action_of(offline: OfflineBehaviour, wakeup: Wakeup) -> OfflineAction {
    match wakeup {
        Wakeup::Admitted => OfflineAction::RunSession,
        Wakeup::Disconnected => OfflineAction::Exit,
        Wakeup::Timeout => match offline {
            OfflineBehaviour::Silence => OfflineAction::PublishSilence,
            OfflineBehaviour::Inactive => OfflineAction::Idle,
        },
    }
}

/// Decides what an offline worker does on waking.
pub fn offline_action(offline: OfflineBehaviour, wakeup: Wakeup) -> (action: OfflineAction)
    ensures
        action == offline_action_of(offline, wakeup),
{
    match wakeup {
        Wakeup::Admitted => OfflineAction::RunSession,
        Wakeup::Disconnected => OfflineAction::Exit,
        Wakeup::Timeout => match offline {
            OfflineBehaviour::Silence => OfflineAction::PublishSilence,
            OfflineBehaviour::Inactive => OfflineAction::Idle,
        },
    }
}

/// The deadlines of a run of silence, counted from the moment it began: the
/// n-th wait ends n buffer lengths after that moment.
#[derive(Clone, Copy, Debug)]
pub struct SilenceSchedule {
    pub buffer_ms: u64,
    pub waited_ms: u64,
}

impl SilenceSchedule {
    /// A schedule that has not waited yet.
    pub fn new(buffer_ms: u64) -> (schedule: SilenceSchedule)
        ensures
            schedule.buffer_ms == buffer_ms,
            schedule.waited_ms == 0,
    {
        SilenceSchedule { buffer_ms, waited_ms: 0 }
    }

    /// Moves on by one buffer length and gives the new deadline as a distance
    /// from the start; nothing, and no move, once the distance would pass
    /// what 64 bits of milliseconds hold.
    pub fn next_deadline(&mut self) -> (deadline: Option<Duration>)
        ensures
            final(self).buffer_ms == old(self).buffer_ms,
            deadline is Some <==> old(self).waited_ms + old(self).buffer_ms <= u64::MAX,
            deadline is None ==> final(self).waited_ms == old(self).waited_ms,
            deadline matches Some(d) ==> {
                &&& final(self).waited_ms == old(self).waited_ms + old(self).buffer_ms
                &&& duration_nanos(d) == final(self).waited_ms * 1_000_000
            },
    {
        match self.waited_ms.checked_add(self.buffer_ms) {
            Some(total) => {
                self.waited_ms = total;
                Some(Duration::from_millis(total))
            },
            None => None,
        }
    }
}

/// The announcement of a broadcaster: the worker waits on it for the decoder.
#[verifier::reject_recursive_types(D)]
pub struct NewSource<D> {
    rx: Receiver<D>,
}

/// A reserved source. Starting it hands the decoder to the worker; dropping
/// it gives the source up.
#[verifier::reject_recursive_types(D)]
pub struct StartSource<D> {
    send: Sender<D>,
}

impl<D> NewSource<D> {
    /// Waits for the decoder; none comes where the reservation was given up.
    pub fn accept(&self) -> (io: Option<D>) {
        match wait_next(&self.rx) {
            Ok(io) => Some(io),
            Err(_) => None,
        }
    }
}

impl<D> StartSource<D> {
    /// Hands the decoder to the worker, and tells whether the worker took it.
    pub fn start(self, io: D) -> (res: Result<(), ()>) {
        if send_waiting(&self.send, io) {
            Ok(())
        } else {
            Err(())
        }
    }
}

/// How the answer of the rendezvous reads to one who connects. Being turned
/// away as busy means a broadcaster is live; a receiver that is gone means the
/// worker is.
pub fn connect_outcome(sent: Result<(), SendError>) -> (res: Result<(), ConnectSourceError>)
    ensures
        res == match sent {
            Ok(()) => Ok::<(), ConnectSourceError>(()),
            Err(SendError::Busy) => Err(ConnectSourceError::AlreadyConnected),
            Err(SendError::Disconnected) => Err(ConnectSourceError::WorkerGone),
        },
{
    match sent {
        Ok(()) => Ok(()),
        Err(SendError::Busy) => Err(ConnectSourceError::AlreadyConnected),
        Err(SendError::Disconnected) => Err(ConnectSourceError::WorkerGone),
    }
}

/// The ends of one source that the endpoints hold.
#[verifier::reject_recursive_types(D)]
pub struct Source<D> {
    name: String,
    command: RendezvousSender<NewSource<D>>,
    output: LiveSubscriber<Arc<PcmData>>,
}

impl<D> Source<D> {
    /// Subscriptions to a source's PCM have queues of one slot: only the
    /// freshest undelivered batch matters.
    #[verifier::type_invariant]
    spec fn queue_of_one(self) -> bool {
        self.output.capacity() == crate::fanout::BUFFER_SIZE
    }
}

/// The ends of one source that its worker holds.
#[verifier::reject_recursive_types(D)]
pub struct SourceThreadContext<D> {
    pub name: String,
    pub command: RendezvousReceiver<NewSource<D>>,
    pub config: SourceConfig,
    pub output: LivePublisher<Arc<PcmData>>,
}

/// What woke an offline worker, with the announcement where a broadcaster
/// was handed over. The source stays reserved for as long as that is held.
#[verifier::reject_recursive_types(D)]
pub enum Woken<'a, D> {
    Admitted(RendezvousHandle<'a, NewSource<D>>),
    Timeout,
    Disconnected,
}

impl<'a, D> Woken<'a, D> {
    pub open spec fn wakeup(&self) -> Wakeup {
        match self {
            Woken::Admitted(_) => Wakeup::Admitted,
            Woken::Timeout => Wakeup::Timeout,
            Woken::Disconnected => Wakeup::Disconnected,
        }
    }

    /// What woke the worker, without what came with it.
    pub fn kind(&self) -> (wakeup: Wakeup)
        ensures
            wakeup == self.wakeup(),
    {
        match self {
            Woken::Admitted(_) => Wakeup::Admitted,
            Woken::Timeout => Wakeup::Timeout,
            Woken::Disconnected => Wakeup::Disconnected,
        }
    }

    /// The announcement that came with the wakeup, if a broadcaster was
    /// handed over.
    pub fn into_handle(self) -> (handle: Option<RendezvousHandle<'a, NewSource<D>>>)
        ensures
            handle is Some <==> self is Admitted,
            handle matches Some(h) ==> self == Woken::Admitted(h),
    {
        match self {
            Woken::Admitted(handle) => Some(handle),
            _ => None,
        }
    }
}

/// How one step of a live session ended.
#[derive(Debug)]
pub enum Progress {
    /// The session goes on.
    Continue,
    /// The input ended.
    Finished,
    /// The input failed.
    Failed(std::io::Error),
    /// The session has run past what its clock can count.
    Overrun,
}

/// How a step ends for what the worker was told to do: publishing and
/// passing over let the session go on, the rest ends it.
pub open spec fn progress_of(action: Action) -> Progress {
    match action {
        Action::Publish(_) => Progress::Continue,
        Action::Skip => Progress::Continue,
        Action::Finish => Progress::Finished,
        Action::Fail(e) => Progress::Failed(e),
        Action::Overrun => Progress::Overrun,
    }
}

impl<D> SourceThreadContext<D> {
    /// Waits while the source is offline. An inactive source waits for a
    /// broadcaster without end and never times out. A silent one waits up
    /// to the next deadline of its schedule, counted from `epoch`, and moves
    /// the schedule on; past the end of the schedule or of the clock it
    /// waits without end as well.
    pub fn wait_offline<'a>(&'a self, epoch: Instant, schedule: &mut SilenceSchedule) -> (woken:
        Woken<'a, D>)
        ensures
            final(schedule).buffer_ms == old(schedule).buffer_ms,
            self.config.offline is Inactive ==> *final(schedule) == *old(schedule) && !(woken
                is Timeout),
            self.config.offline is Silence ==> final(schedule).waited_ms == if old(
                schedule,
            ).waited_ms + old(schedule).buffer_ms <= u64::MAX {
                (old(schedule).waited_ms + old(schedule).buffer_ms) as u64
            } else {
                old(schedule).waited_ms
            },
            self.config.offline is Silence && woken is Timeout ==> old(schedule).waited_ms + old(
                schedule,
            ).buffer_ms <= u64::MAX,
    {
        let deadline = match self.config.offline {
            OfflineBehaviour::Inactive => None,
            OfflineBehaviour::Silence => match schedule.next_deadline() {
                Some(offset) => instant_after(epoch, offset),
                None => None,
            },
        };
        match deadline {
            Some(deadline) => match self.command.recv_deadline(deadline) {
                Ok(handle) => Woken::Admitted(handle),
                Err(RecvTimeoutError::Timeout) => Woken::Timeout,
                Err(RecvTimeoutError::Disconnected) => Woken::Disconnected,
            },
            None => match self.command.recv() {
                Ok(handle) => Woken::Admitted(handle),
                Err(_) => Woken::Disconnected,
            },
        }
    }

    /// Publishes the batches in order, each to every subscriber.
    pub fn publish_batches(&self, batches: Vec<PcmData>) {
        let mut batches = batches;
        while batches.len() > 0
            decreases batches@.len(),
        {
            let batch = batches.remove(0);
            self.output.publish(Arc::new(batch));
        }
    }

    /// One step of a live session: reads the decoder once, takes in what it
    /// gave as `Session::read_effect` says, with this source's buffer
    /// length, and publishes the batches that came of it. What the read
    /// gives is the decoder's to say; whatever it is, the session moves as
    /// that read moves it, and the step ends as `progress_of` tells for the
    /// action that came of it.
    pub fn session_step<R: PcmRead>(&self, session: &mut Session, io: &mut R) -> (progress:
        Progress)
        requires
            old(session).wf(),
        ensures
            final(session).wf(),
            exists|outcome: Result<PcmData, PcmReadError>, action: Action|
                {
                    &&& #[trigger] old(session).read_effect(
                        outcome,
                        self.config.buffer_ms,
                        *final(session),
                        action,
                    )
                    &&& progress == progress_of(action)
                },
            !(progress is Continue) ==> *final(session) == *old(session),
    {
        let outcome = io.read();
        let ghost seen = outcome;
        let action = session.on_read(outcome, self.config.buffer_ms);
        let ghost taken = action;
        let progress = match action {
            Action::Publish(batches) => {
                self.publish_batches(batches);
                Progress::Continue
            },
            Action::Skip => Progress::Continue,
            Action::Finish => Progress::Finished,
            Action::Fail(e) => Progress::Failed(e),
            Action::Overrun => Progress::Overrun,
        };
        assert(old(session).read_effect(seen, self.config.buffer_ms, *session, taken)
            && progress == progress_of(taken));
        progress
    }
}

/// All configured sources, by name.
#[verifier::reject_recursive_types(D)]
pub struct SourceSet<D> {
    sources: Vec<Source<D>>,
}

impl<D> SourceSet<D> {
    /// The names of the sources, in order.
    pub closed spec fn names(&self) -> Seq<Seq<char>> {
        self.sources@.map_values(|s: Source<D>| s.name@)
    }

    /// Some source bears this name.
    pub open spec fn has_source(&self, name: Seq<char>) -> bool {
        self.names().contains(name)
    }

    /// Sets up the channels of every configured source. The set is for the
    /// endpoints; each context is for the worker of one source, which is yet
    /// to be started.
    pub fn new(config: &Vec<NamedSource>) -> (made: (SourceSet<D>, Vec<SourceThreadContext<D>>))
        ensures
            made.0.names() == config@.map_values(|s: NamedSource| s.name@),
            made.1@.len() == config@.len(),
            forall|i: int|
                0 <= i < config@.len() ==> (#[trigger] made.1@[i]).name@ == config@[i].name@
                    && made.1@[i].config == config@[i].config,
    {
        let mut sources: Vec<Source<D>> = Vec::new();
        let mut workers: Vec<SourceThreadContext<D>> = Vec::new();
        let mut i: usize = 0;
        while i < config.len()
            invariant
                i <= config@.len(),
                sources@.len() == i,
                workers@.len() == i,
                forall|j: int| 0 <= j < i ==> (#[trigger] sources@[j]).name@ == config@[j].name@,
                forall|j: int|
                    0 <= j < i ==> (#[trigger] workers@[j]).name@ == config@[j].name@
                        && workers@[j].config == config@[j].config,
            decreases config@.len() - i,
        {
            let (cmd_send, cmd_recv) = rendezvous();
            let (publisher, subscriber) = live_channel();
            workers.push(
                SourceThreadContext {
                    name: config[i].name.clone(),
                    command: cmd_recv,
                    config: config[i].config,
                    output: publisher,
                },
            );
            sources.push(
                Source { name: config[i].name.clone(), command: cmd_send, output: subscriber },
            );
            i += 1;
        }
        let set = SourceSet { sources };
        assert(set.names() =~= config@.map_values(|s: NamedSource| s.name@));
        (set, workers)
    }

    fn find(&self, name: &str) -> (found: Option<usize>)
        ensures
            found is Some <==> self.has_source(name@),
            found matches Some(i) ==> i < self.sources@.len() && self.sources@[i as int].name@
                == name@,
    {
        let wanted = name.to_owned();
        let mut i: usize = 0;
        while i < self.sources.len()
            invariant
                i <= self.sources@.len(),
                wanted@ == name@,
                forall|j: int| 0 <= j < i ==> self.names()[j] != name@,
            decreases self.sources@.len() - i,
        {
            if self.sources[i].name == wanted {
                assert(self.names()[i as int] == name@);
                return Some(i);
            }
            i += 1;
        }
        None
    }

    /// Reserves the source for a broadcaster, before any of its audio is
    /// read. The one who holds the reservation either starts the source with
    /// a decoder or drops the reservation. An unknown name is refused at
    /// once; whether a known source is free is for its rendezvous to say, as
    /// `connect_outcome` reads it.
    pub fn connect_source(&self, name: &str) -> (res: Result<StartSource<D>, ConnectSourceError>)
        ensures
            res matches Err(ConnectSourceError::NoSuchSource) <==> !self.has_source(name@),
    {
        let at = match self.find(name) {
            Some(at) => at,
            None => {
                return Err(ConnectSourceError::NoSuchSource);
            },
        };
        let (tx, rx) = bounded_queue(0);
        match connect_outcome(self.sources[at].command.send(NewSource { rx })) {
            Ok(()) => Ok(StartSource { send: tx }),
            Err(e) => Err(e),
        }
    }

    /// A new subscription to the PCM of a source, with a queue of one slot;
    /// none for an unknown name or a source whose worker has left.
    pub fn source_stream(&self, name: &str) -> (stream: Option<LiveReceiver<Arc<PcmData>>>)
        ensures
            !self.has_source(name@) ==> stream is None,
            stream matches Some(receiver) ==> receiver.capacity() == crate::fanout::BUFFER_SIZE,
    {
        match self.find(name) {
            Some(at) => {
                let source = &self.sources[at];
                proof {
                    use_type_invariant(source);
                }
                match source.output.subscribe() {
                    Ok(rx) => Some(rx),
                    Err(_) => None,
                }
            },
            None => None,
        }
    }
}

} // verus!
