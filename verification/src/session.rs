//! A live session: the batching of decoded samples and the clock that
//! paces them.

use vstd::prelude::*;
use crate::audio::decode::PcmReadError;
use crate::audio::PcmData;
use crate::pacing::Elapsed;

verus! {

/// The number of interleaved samples in one published batch: `buffer_ms`
/// milliseconds of samples per channel, rounded down, for every channel.
pub open spec fn batch_len(buffer_ms: usize, sample_rate: usize, channels: usize) -> nat {
    ((buffer_ms as nat * sample_rate as nat) / 1000) * channels as nat
}

/// How many whole batches `len` samples hold. A batch of no samples is never
/// cut.
pub open spec fn batch_count(len: nat, batch: nat) -> nat {
    if batch == 0 {
        0
    } else {
        len / batch
    }
}

/// The samples of the `i`-th batch.
pub open spec fn batch_at(samples: Seq<i16>, batch: nat, i: int) -> Seq<i16> {
    samples.subrange(i * batch, (i + 1) * batch)
}

/// What stays behind once the whole batches are cut: less than one batch, or
/// nothing at all where a batch would hold no samples.
pub open spec fn residue(samples: Seq<i16>, batch: nat) -> Seq<i16> {
    if batch == 0 {
        Seq::empty()
    } else {
        samples.skip((batch_count(samples.len(), batch) * batch) as int)
    }
}

/// Cutting batches loses nothing and moves nothing: every sample of the
/// buffer stands at its place in one of the batches or, past the last whole
/// batch, in what stays behind, and less than one batch stays behind.
pub proof fn lemma_batches_partition(samples: Seq<i16>, batch: nat, k: int)
    requires
        batch > 0,
        0 <= k < samples.len(),
    ensures
        residue(samples, batch).len() < batch,
        batch_count(samples.len(), batch) * batch + residue(samples, batch).len() == samples.len(),
        k < batch_count(samples.len(), batch) * batch ==> {
            &&& 0 <= k / (batch as int) < batch_count(samples.len(), batch)
            &&& batch_at(samples, batch, k / (batch as int))[k % (batch as int)] == samples[k]
        },
        k >= batch_count(samples.len(), batch) * batch ==> residue(samples, batch)[k - batch_count(
            samples.len(),
            batch,
        ) * batch] == samples[k],
{
    let len = samples.len() as int;
    let b = batch as int;
    let count = len / b;
    assert(count * b <= len && len - count * b < b && count >= 0) by (nonlinear_arith)
        requires
            count == len / b,
            b > 0,
            len >= 0,
    ;
    if k < count * b {
        let q = k / b;
        let r = k % b;
        assert(0 <= q < count && 0 <= r < b && q * b + r == k && (q + 1) * b <= count * b && (q
            + 1) * b == q * b + b) by (nonlinear_arith)
            requires
                q == k / b,
                r == k % b,
                0 <= k < count * b,
                b > 0,
        ;
    }
}

/// Taking in a frame never moves the clock of a session back.
pub proof fn lemma_clock_moves_on(before: Elapsed, after: Elapsed, frames: nat, rate: nat)
    requires
        before.wf(),
        after.wf(),
        rate > 0,
        after.is_sum(before, frames, rate),
    ensures
        before.numer * after.denom <= after.numer * before.denom,
{
    let bn = before.numer as int;
    let bd = before.denom as int;
    let an = after.numer as int;
    let ad = after.denom as int;
    let r = rate as int;
    let f = frames as int;
    assert(bn * ad <= an * bd) by (nonlinear_arith)
        requires
            an * (bd * r) == (bn * r + f * bd) * ad,
            bd > 0,
            ad > 0,
            r > 0,
            f >= 0,
            bn >= 0,
            an >= 0,
    ;
}

/// What the worker does after one read of the decoder.
#[derive(Debug)]
pub enum Action {
    /// Publish these batches in order, then read on.
    Publish(Vec<PcmData>),
    /// Nothing to publish; read on.
    Skip,
    /// The input ended: the session is over.
    Finish,
    /// The input failed: the session is over.
    Fail(std::io::Error),
    /// The session has run past what its clock can count: it is over.
    Overrun,
}

/// A live session: the samples not yet published and the exact playing time
/// of everything decoded so far.
#[derive(Debug)]
pub struct Session {
    pub buffer: Vec<i16>,
    pub elapsed: Elapsed,
}

fn copy_range(samples: &Vec<i16>, from: usize, to: usize) -> (out: Vec<i16>)
    requires
        from <= to <= samples@.len(),
    ensures
        out@ == samples@.subrange(from as int, to as int),
{
    let mut out: Vec<i16> = Vec::new();
    let mut i: usize = from;
    while i < to
        invariant
            from <= i <= to <= samples@.len(),
            out@ == samples@.subrange(from as int, i as int),
        decreases to - i,
    {
        out.push(samples[i]);
        assert(out@ =~= samples@.subrange(from as int, i + 1));
        i += 1;
    }
    out
}

/// Computes `batch_len`, or nothing where it does not fit a `usize`.
fn batch_size(buffer_ms: usize, sample_rate: usize, channels: usize) -> (size: Option<usize>)
    ensures
        size is Some <==> batch_len(buffer_ms, sample_rate, channels) <= usize::MAX,
        size matches Some(n) ==> n == batch_len(buffer_ms, sample_rate, channels),
{
    assert(buffer_ms * sample_rate <= 0xffff_ffff_ffff_ffff * 0xffff_ffff_ffff_ffff)
        by (nonlinear_arith)
        requires
            buffer_ms <= 0xffff_ffff_ffff_ffff,
            sample_rate <= 0xffff_ffff_ffff_ffff,
    ;
    let per_channel: u128 = (buffer_ms as u128 * sample_rate as u128) / 1000;
    if channels == 0 {
        assert(per_channel * 0 == 0) by (nonlinear_arith);
        return Some(0);
    }
    if per_channel > usize::MAX as u128 {
        assert(per_channel * channels > usize::MAX) by (nonlinear_arith)
            requires
                per_channel > usize::MAX,
                channels >= 1,
        ;
        return None;
    }
    assert(per_channel * channels <= 0xffff_ffff_ffff_ffff * 0xffff_ffff_ffff_ffff)
        by (nonlinear_arith)
        requires
            per_channel <= 0xffff_ffff_ffff_ffff,
            channels <= 0xffff_ffff_ffff_ffff,
    ;
    let total: u128 = per_channel * channels as u128;
    if total > usize::MAX as u128 {
        None
    } else {
        Some(total as usize)
    }
}

impl Session {
    pub open spec fn wf(&self) -> bool {
        self.elapsed.wf()
    }

    /// A session that has decoded nothing yet.
    pub fn new() -> (session: Session)
        ensures
            session.buffer@.len() == 0,
            session.elapsed.numer == 0,
            session.elapsed.denom == 1,
            session.wf(),
    {
        Session { buffer: Vec::new(), elapsed: Elapsed::zero() }
    }

    /// How long after its start the session reads next, in nanoseconds: the
    /// playing time of all it has decoded.
    pub fn wake_after(&self) -> (nanos: Option<u64>)
        requires
            self.wf(),
        ensures
            nanos is Some <==> self.elapsed.can_count_nanos(),
            nanos matches Some(n) ==> n == self.elapsed.nanos(),
    {
        self.elapsed.whole_nanos()
    }

    /// Cuts every whole batch off the front of the buffer.
    fn cut_batches(&mut self, batch: usize, sample_rate: usize, channels: usize) -> (batches: Vec<
        PcmData,
    >)
        requires
            batch > 0,
            sample_rate > 0,
            channels > 0,
            batch % channels == 0,
        ensures
            final(self).elapsed == old(self).elapsed,
            final(self).buffer@ == residue(old(self).buffer@, batch as nat),
            batches@.len() == batch_count(old(self).buffer@.len(), batch as nat),
            forall|i: int|
                0 <= i < batches@.len() ==> {
                    &&& (#[trigger] batches@[i]).samples@ == batch_at(
                        old(self).buffer@,
                        batch as nat,
                        i,
                    )
                    &&& batches@[i].sample_rate == sample_rate
                    &&& batches@[i].channels == channels
                    &&& batches@[i].wf()
                },
    {
        let total = self.buffer.len();
        let mut batches: Vec<PcmData> = Vec::new();
        let mut start: usize = 0;
        assert(0 * batch == 0) by (nonlinear_arith);
        while total - start >= batch
            invariant
                batch > 0,
                sample_rate > 0,
                channels > 0,
                batch % channels == 0,
                *self == *old(self),
                total == self.buffer@.len(),
                start <= total,
                start == batches@.len() * batch,
                forall|i: int|
                    0 <= i < batches@.len() ==> {
                        &&& (#[trigger] batches@[i]).samples@ == batch_at(
                            self.buffer@,
                            batch as nat,
                            i,
                        )
                        &&& batches@[i].sample_rate == sample_rate
                        &&& batches@[i].channels == channels
                        &&& batches@[i].wf()
                    },
            decreases total - start,
        {
            let samples = copy_range(&self.buffer, start, start + batch);
            assert((batches@.len() + 1) * batch == start + batch) by (nonlinear_arith)
                requires
                    start == batches@.len() * batch,
            ;
            batches.push(PcmData { sample_rate, channels, samples });
            start = start + batch;
        }
        proof {
            let n = batches@.len() as int;
            assert(n == total as int / batch as int) by (nonlinear_arith)
                requires
                    start == n * batch,
                    start <= total,
                    total - start < batch,
                    batch > 0,
                    n >= 0,
            ;
        }
        let rest = self.buffer.split_off(start);
        assert(rest@ =~= old(self).buffer@.skip(start as int));
        self.buffer = rest;
        batches
    }

    /// Takes in one decoded frame: its samples join the buffer, every whole
    /// batch of `buffer_ms` milliseconds leaves it in order, bearing the
    /// frame's rate and channels, and the clock moves on by the frame's
    /// playing time. Where the clock cannot move on, nothing changes.
    pub fn absorb(&mut self, frame: PcmData, buffer_ms: usize) -> (batches: Option<Vec<PcmData>>)
        requires
            old(self).wf(),
            frame.wf(),
        ensures
            final(self).wf(),
            batches is Some <==> old(self).elapsed.can_add(frame.frames(), frame.sample_rate as nat),
            batches is None ==> *final(self) == *old(self),
            batches matches Some(out) ==> {
                let joined = old(self).buffer@ + frame.samples@;
                let batch = batch_len(buffer_ms, frame.sample_rate, frame.channels);
                &&& final(self).elapsed.is_sum(
                    old(self).elapsed,
                    frame.frames(),
                    frame.sample_rate as nat,
                )
                &&& final(self).buffer@ == residue(joined, batch)
                &&& out@.len() == batch_count(joined.len(), batch)
                &&& forall|i: int|
                    0 <= i < out@.len() ==> {
                        &&& (#[trigger] out@[i]).samples@ == batch_at(joined, batch, i)
                        &&& out@[i].sample_rate == frame.sample_rate
                        &&& out@[i].channels == frame.channels
                        &&& out@[i].wf()
                    }
            },
    {
        let frames = frame.samples.len() / frame.channels;
        let elapsed = match self.elapsed.plus_frames(frames, frame.sample_rate) {
            Some(elapsed) => elapsed,
            None => {
                return None;
            },
        };
        let sample_rate = frame.sample_rate;
        let channels = frame.channels;
        let mut samples = frame.samples;
        self.elapsed = elapsed;
        self.buffer.append(&mut samples);
        let ghost joined = self.buffer@;
        let held: usize = self.buffer.len();
        match batch_size(buffer_ms, sample_rate, channels) {
            Some(batch) => {
                if batch == 0 {
                    self.buffer.clear();
                    assert(self.buffer@ =~= residue(joined, 0));
                    Some(Vec::new())
                } else {
                    assert(batch % channels == 0) by (nonlinear_arith)
                        requires
                            batch == ((buffer_ms as nat * sample_rate as nat) / 1000) * channels as nat,
                            channels > 0,
                    ;
                    Some(self.cut_batches(batch, sample_rate, channels))
                }
            },
            None => {
                assert(joined.len() / batch_len(buffer_ms, sample_rate, channels) == 0)
                    by (nonlinear_arith)
                    requires
                        joined.len() == held,
                        batch_len(buffer_ms, sample_rate, channels) > usize::MAX,
                ;
                assert(0 * batch_len(buffer_ms, sample_rate, channels) == 0) by (nonlinear_arith);
                assert(joined.skip(0) =~= joined);
                Some(Vec::new())
            },
        }
    }

    /// What one read of the decoder makes of a session: `after` is the
    /// session that follows this one, and `action` what the worker does, when
    /// the read gave `outcome`. A well-formed frame is taken in as `absorb`
    /// says, and its batches are to be published; where the clock cannot
    /// take it the session is overrun. Anything else leaves the session as
    /// it is: the end of the input finishes it, a failure fails it, and what
    /// is no frame, or no well-formed one, is passed over.
    pub open spec fn read_effect(
        self,
        outcome: Result<PcmData, PcmReadError>,
        buffer_ms: usize,
        after: Session,
        action: Action,
    ) -> bool {
        match outcome {
            Ok(frame) => if !frame.wf() {
                action is Skip && after == self
            } else if !self.elapsed.can_add(frame.frames(), frame.sample_rate as nat) {
                action is Overrun && after == self
            } else {
                let joined = self.buffer@ + frame.samples@;
                let batch = batch_len(buffer_ms, frame.sample_rate, frame.channels);
                &&& after.elapsed.is_sum(self.elapsed, frame.frames(), frame.sample_rate as nat)
                &&& after.buffer@ == residue(joined, batch)
                &&& action matches Action::Publish(out)
                &&& out@.len() == batch_count(joined.len(), batch)
                &&& forall|i: int|
                    0 <= i < out@.len() ==> {
                        &&& (#[trigger] out@[i]).samples@ == batch_at(joined, batch, i)
                        &&& out@[i].sample_rate == frame.sample_rate
                        &&& out@[i].channels == frame.channels
                        &&& out@[i].wf()
                    }
            },
            Err(PcmReadError::Eof) => action is Finish && after == self,
            Err(PcmReadError::SkippedData) => action is Skip && after == self,
            Err(PcmReadError::MalformedFrame) => action is Skip && after == self,
            Err(PcmReadError::Io(e)) => action == Action::Fail(e) && after == self,
        }
    }

    /// Decides what follows one read of the decoder, as `read_effect` says.
    pub fn on_read(&mut self, outcome: Result<PcmData, PcmReadError>, buffer_ms: usize) -> (action:
        Action)
        requires
            old(self).wf(),
        ensures
            final(self).wf(),
            old(self).read_effect(outcome, buffer_ms, *final(self), action),
    {
        match outcome {
            Ok(frame) => {
                if !frame.is_valid() {
                    return Action::Skip;
                }
                match self.absorb(frame, buffer_ms) {
                    Some(batches) => Action::Publish(batches),
                    None => Action::Overrun,
                }
            },
            Err(PcmReadError::Eof) => Action::Finish,
            Err(PcmReadError::SkippedData) => Action::Skip,
            Err(PcmReadError::MalformedFrame) => Action::Skip,
            Err(PcmReadError::Io(e)) => Action::Fail(e),
        }
    }
}

} // verus!
