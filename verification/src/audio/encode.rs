//! The encoder interface and the preparation of frames for a stereo encoder.

use vstd::prelude::*;
use crate::audio::PcmData;
use crate::config::CodecConfig;

verus! {

/// A stateful push-based encoder: one frame in, a run of encoded bytes out.
/// The bytes may be empty while the encoder is still filling its own buffer.
pub trait Codec {
    fn describe(&self) -> String;

    fn encode(&mut self, data: &PcmData) -> Vec<u8>;
}

/// The MIME type under which a stream of this codec is served.
pub fn mime_type_from_config(config: &CodecConfig) -> (mime: &'static str)
    ensures
        mime@ == "audio/mpeg"@,
{
    match config {
        CodecConfig::Mp3(_) => "audio/mpeg",
    }
}

/// Fixed headroom of an MP3 output buffer, in bytes.
pub const MP3_BUFFER_HEADROOM: usize = 7200;

/// Bytes that an MP3 output buffer needs for `samples` samples per channel:
/// five quarters of the sample count, rounded down, plus the headroom.
pub open spec fn mp3_buffer_len(samples: nat) -> nat {
    samples * 5 / 4 + MP3_BUFFER_HEADROOM as nat
}

/// Computes `mp3_buffer_len`, or nothing where it does not fit a `usize`.
pub fn mp3_buffer_size(samples: usize) -> (size: Option<usize>)
    ensures
        size is Some <==> mp3_buffer_len(samples as nat) <= usize::MAX,
        size matches Some(n) ==> n == mp3_buffer_len(samples as nat),
{
    let quarter: usize = samples / 4;
    assert(samples as nat * 5 / 4 == samples + quarter) by (nonlinear_arith)
        requires
            quarter == samples / 4,
    ;
    match samples.checked_add(quarter) {
        Some(body) => body.checked_add(MP3_BUFFER_HEADROOM),
        None => None,
    }
}

/// The channel that feeds the right ear: the second one, or the only one.
pub open spec fn right_channel(channels: usize) -> int {
    if channels == 1 {
        0
    } else {
        1
    }
}

/// Index `f` of the left plane holds the first channel of frame `f`, and of
/// the right plane the second channel, or the first again for mono input.
/// Channels beyond the second are left out.
pub open spec fn stereo_planes_of(pcm: PcmData, left: Seq<i16>, right: Seq<i16>) -> bool {
    &&& left.len() == pcm.frames()
    &&& right.len() == pcm.frames()
    &&& forall|f: int| 0 <= f < left.len() ==> #[trigger] left[f] == pcm.samples@[f * pcm.channels]
    &&& forall|f: int|
        0 <= f < right.len() ==> #[trigger] right[f] == pcm.samples@[f * pcm.channels
            + right_channel(pcm.channels)]
}

/// Splits an interleaved frame into the two planes that a stereo encoder takes.
pub fn stereo_planes(data: &PcmData) -> (planes: (Vec<i16>, Vec<i16>))
    requires
        data.wf(),
    ensures
        stereo_planes_of(*data, planes.0@, planes.1@),
{
    let channels = data.channels;
    let total = data.samples.len();
    let offset: usize = if channels == 1 { 0 } else { 1 };
    let mut left: Vec<i16> = Vec::new();
    let mut right: Vec<i16> = Vec::new();
    let mut base: usize = 0;
    let ghost mut f: int = 0;
    proof {
        assert(total == (total / channels) * channels) by (nonlinear_arith)
            requires
                channels > 0,
                total % channels == 0,
        ;
    }
    while base < total
        invariant
            data.wf(),
            channels == data.channels,
            total == data.samples@.len(),
            offset == right_channel(channels),
            base == f * channels,
            0 <= f <= data.frames(),
            total == data.frames() * channels,
            left@.len() == f,
            right@.len() == f,
            forall|g: int| 0 <= g < f ==> #[trigger] left@[g] == data.samples@[g * channels],
            forall|g: int| 0 <= g < f ==> #[trigger] right@[g] == data.samples@[g * channels + offset],
        decreases total - base,
    {
        proof {
            assert(f < data.frames() && (f + 1) * channels <= total && (f + 1) * channels == base
                + channels) by (nonlinear_arith)
                requires
                    base == f * channels,
                    base < total,
                    total == data.frames() * channels,
                    channels > 0,
            ;
        }
        left.push(data.samples[base]);
        right.push(data.samples[base + offset]);
        base = base + channels;
        proof {
            f = f + 1;
        }
    }
    proof {
        assert(f == data.frames()) by (nonlinear_arith)
            requires
                base == f * channels,
                base >= total,
                total == data.frames() * channels,
                f <= data.frames(),
                channels > 0,
        ;
    }
    (left, right)
}

} // verus!
