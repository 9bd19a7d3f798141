//! Raw PCM frames.

use std::time::Duration;
use vstd::prelude::*;

pub mod decode;
pub mod encode;

verus! {

/// Sample rate of generated silence, in Hz.
pub const SILENCE_SAMPLE_RATE: usize = 44100;

/// Channel count of generated silence.
pub const SILENCE_CHANNELS: usize = 2;

/// Nanoseconds in one second.
pub const NANOS_PER_SEC: u128 = 1_000_000_000;

/// The whole number of nanoseconds that a `Duration` spans.
pub uninterp spec fn duration_nanos(d: Duration) -> nat;

/// `Duration::as_nanos` returns the duration's total length in nanoseconds.
pub assume_specification[ Duration::as_nanos ](d: &Duration) -> (n: u128)
    ensures
        n == duration_nanos(*d),
;

/// `Duration::from_millis` builds the duration of that many milliseconds,
/// which spans a million nanoseconds for each.
pub assume_specification[ Duration::from_millis ](millis: u64) -> (d: Duration)
    ensures
        duration_nanos(d) == millis * 1_000_000,
;

/// A batch of interleaved signed 16-bit samples.
#[derive(Clone, Debug)]
pub struct PcmData {
    pub sample_rate: usize,
    pub channels: usize,
    pub samples: Vec<i16>,
}

/// The number of per-channel samples of silence that fill `nanos`
/// nanoseconds, rounded down.
pub open spec fn silence_frames(nanos: nat) -> nat {
    nanos * (SILENCE_SAMPLE_RATE as nat) / (NANOS_PER_SEC as nat)
}

/// The number of interleaved samples in that much silence.
pub open spec fn silence_samples(nanos: nat) -> nat {
    silence_frames(nanos) * (SILENCE_CHANNELS as nat)
}

impl PcmData {
    /// A frame is well formed when its rate and channel count are positive
    /// and every channel has the same number of samples.
    pub open spec fn wf(&self) -> bool {
        &&& self.sample_rate > 0
        &&& self.channels > 0
        &&& self.samples@.len() % (self.channels as nat) == 0
    }

    /// The number of samples that each channel holds.
    pub open spec fn frames(&self) -> nat
        recommends
            self.channels > 0,
    {
        self.samples@.len() / (self.channels as nat)
    }

    /// Tests well-formedness.
    pub fn is_valid(&self) -> (ok: bool)
        ensures
            ok == self.wf(),
    {
        self.sample_rate > 0 && self.channels > 0 && self.samples.len() % self.channels == 0
    }

    /// A frame of zero-valued stereo samples at 44.1 kHz that lasts
    /// `duration`, rounded down to whole samples.
    pub fn silence(duration: Duration) -> (pcm: PcmData)
        requires
            silence_samples(duration_nanos(duration)) <= usize::MAX,
        ensures
            pcm.sample_rate == SILENCE_SAMPLE_RATE,
            pcm.channels == SILENCE_CHANNELS,
            pcm.samples@ == Seq::new(silence_samples(duration_nanos(duration)), |i: int| 0i16),
            pcm.wf(),
    {
        let nanos: u128 = duration.as_nanos();
        assert(nanos * 44100 <= u128::MAX) by (nonlinear_arith)
            requires
                (nanos as nat) * 44100 / 1_000_000_000 * 2 <= usize::MAX,
                usize::MAX <= u64::MAX,
        ;
        let per_channel: u128 = nanos * 44100 / NANOS_PER_SEC;
        let sample_count: usize = (per_channel * 2) as usize;
        let samples: Vec<i16> = vec![0i16; sample_count];
        assert(samples@ =~= Seq::new(sample_count as nat, |i: int| 0i16));
        PcmData { sample_rate: SILENCE_SAMPLE_RATE, channels: SILENCE_CHANNELS, samples }
    }

    /// As `silence`, for any duration: nothing where the samples would be
    /// more than can be counted.
    pub fn try_silence(duration: Duration) -> (made: Option<PcmData>)
        ensures
            made is Some <==> silence_samples(duration_nanos(duration)) <= usize::MAX,
            made matches Some(pcm) ==> {
                &&& pcm.sample_rate == SILENCE_SAMPLE_RATE
                &&& pcm.channels == SILENCE_CHANNELS
                &&& pcm.samples@ == Seq::new(
                    silence_samples(duration_nanos(duration)),
                    |i: int| 0i16,
                )
                &&& pcm.wf()
            },
    {
        let nanos: u128 = duration.as_nanos();
        // beyond this the samples are past counting in any case
        if nanos > 0xffff_ffff_ffff_ffff_ffff_ffff {
            assert(silence_samples(nanos as nat) > usize::MAX) by (nonlinear_arith)
                requires
                    nanos > 0xffff_ffff_ffff_ffff_ffff_ffff,
                    silence_samples(nanos as nat) == (nanos as nat) * 44100 / 1_000_000_000 * 2,
                    usize::MAX <= 0xffff_ffff_ffff_ffff,
            ;
            return None;
        }
        let per_channel: u128 = nanos * 44100 / NANOS_PER_SEC;
        if per_channel * 2 > usize::MAX as u128 {
            None
        } else {
            Some(PcmData::silence(duration))
        }
    }
}

} // verus!
