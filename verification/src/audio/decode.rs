//! The decoder interface and the assembly of decoded planes into frames.

use vstd::prelude::*;
use crate::audio::PcmData;

verus! {

/// `std::io::Error`, carried through unchanged.
#[verifier::external_type_specification]
#[verifier::external_body]
pub struct ExIoError(std::io::Error);

/// Why a decoder produced no frame.
#[derive(Debug)]
pub enum PcmReadError {
    /// The input failed; the session is over.
    Io(std::io::Error),
    /// The input ended; the session is over.
    Eof,
    /// Something that is not audio was read and passed over.
    SkippedData,
    /// A frame was damaged beyond use and passed over.
    MalformedFrame,
}

/// A pull-based source of PCM frames.
pub trait PcmRead {
    fn read(&mut self) -> Result<PcmData, PcmReadError>;
}

/// The length of the shortest plane, or zero when there is none.
pub open spec fn plane_frames(planes: Seq<Seq<i16>>) -> nat
    decreases planes.len(),
{
    if planes.len() == 0 {
        0
    } else if planes.len() == 1 {
        planes[0].len()
    } else {
        let rest = plane_frames(planes.drop_last());
        if planes.last().len() < rest {
            planes.last().len()
        } else {
            rest
        }
    }
}

/// The planes woven together sample by sample: frame `f` of channel `c`
/// stands at index `f * channels + c`. Planes longer than the shortest one
/// are cut to its length.
pub open spec fn interleaved(planes: Seq<Seq<i16>>) -> Seq<i16> {
    Seq::new(
        plane_frames(planes) * planes.len(),
        |i: int| planes[i % (planes.len() as int)][i / (planes.len() as int)],
    )
}

/// The views of the planes, in order.
pub open spec fn plane_views(planes: Seq<Vec<i16>>) -> Seq<Seq<i16>> {
    planes.map_values(|p: Vec<i16>| p@)
}

/// No plane is shorter than `plane_frames` says.
pub proof fn lemma_plane_frames_bound(planes: Seq<Seq<i16>>, c: int)
    requires
        0 <= c < planes.len(),
    ensures
        plane_frames(planes) <= planes[c].len(),
    decreases planes.len(),
{
    if planes.len() > 1 {
        if c < planes.len() - 1 {
            lemma_plane_frames_bound(planes.drop_last(), c);
        }
    }
}

fn shortest_plane(planes: &Vec<Vec<i16>>) -> (frames: usize)
    ensures
        frames == plane_frames(plane_views(planes@)),
{
    if planes.len() == 0 {
        return 0;
    }
    let mut frames: usize = planes[0].len();
    let mut c: usize = 1;
    assert(plane_views(planes@).take(1) =~= seq![planes@[0]@]);
    while c < planes.len()
        invariant
            1 <= c <= planes.len(),
            frames == plane_frames(plane_views(planes@).take(c as int)),
        decreases planes.len() - c,
    {
        proof {
            let next = plane_views(planes@).take(c + 1);
            assert(next.drop_last() =~= plane_views(planes@).take(c as int));
            assert(next.last() == planes@[c as int]@);
        }
        if planes[c].len() < frames {
            frames = planes[c].len();
        }
        c += 1;
    }
    assert(plane_views(planes@).take(planes.len() as int) =~= plane_views(planes@));
    frames
}

/// Weaves per-channel planes into one interleaved run of samples.
pub fn interleave(planes: &Vec<Vec<i16>>) -> (out: Vec<i16>)
    ensures
        out@ == interleaved(plane_views(planes@)),
{
    let frames = shortest_plane(planes);
    let count = planes.len();
    let ghost views = plane_views(planes@);
    let mut out: Vec<i16> = Vec::new();
    let mut f: usize = 0;
    while f < frames
        invariant
            f <= frames,
            count == planes.len(),
            views == plane_views(planes@),
            frames == plane_frames(views),
            out@.len() == f * count,
            forall|i: int| 0 <= i < out@.len() ==> out@[i] == views[i % (count as int)][i / (count as int)],
        decreases frames - f,
    {
        let mut c: usize = 0;
        while c < count
            invariant
                f < frames,
                c <= count,
                count == planes.len(),
                views == plane_views(planes@),
                frames == plane_frames(views),
                out@.len() == f * count + c,
                forall|i: int| 0 <= i < out@.len() ==> out@[i] == views[i % (count as int)][i / (count as int)],
            decreases count - c,
        {
            proof {
                lemma_plane_frames_bound(views, c as int);
                let i = f * count + c;
                assert(i % (count as int) == c && i / (count as int) == f) by (nonlinear_arith)
                    requires
                        i == f * count + c,
                        0 <= c < count,
                        0 <= f,
                ;
            }
            out.push(planes[c][f]);
            c += 1;
        }
        assert((f + 1) * count == f * count + count) by (nonlinear_arith);
        f += 1;
    }
    assert(out@ =~= interleaved(views));
    out
}

/// The frame that a decoder hands on for one packet of decoded planes: the
/// planes interleaved, at the stream's rate, with one channel per plane.
/// Without planes or with a zero rate there is no frame to hand on.
pub fn frame_from_planes(sample_rate: usize, planes: &Vec<Vec<i16>>) -> (res: Result<
    PcmData,
    PcmReadError,
>)
    ensures
        (sample_rate == 0 || planes@.len() == 0) <==> res is Err,
        res matches Err(e) ==> e is MalformedFrame,
        res matches Ok(pcm) ==> {
            &&& pcm.sample_rate == sample_rate
            &&& pcm.channels == planes@.len()
            &&& pcm.samples@ == interleaved(plane_views(planes@))
            &&& pcm.wf()
        },
{
    if sample_rate == 0 || planes.len() == 0 {
        return Err(PcmReadError::MalformedFrame);
    }
    let samples = interleave(planes);
    proof {
        let n = plane_frames(plane_views(planes@));
        let c = planes@.len();
        assert((n * c) % c == 0) by (nonlinear_arith)
            requires
                c > 0,
        ;
    }
    Ok(PcmData { sample_rate, channels: planes.len(), samples })
}

/// What reading the next packet off a container came to.
#[derive(Debug)]
pub enum PacketOutcome {
    /// A packet, whole.
    Packet(Vec<u8>),
    /// The container ended.
    End,
    /// The input failed.
    Failed(std::io::Error),
    /// What was read is no packet of this container.
    Damaged,
}

/// What decoding one packet came to.
#[derive(Debug)]
pub enum DecodeOutcome {
    /// One plane of samples for each channel.
    Planes(Vec<Vec<i16>>),
    /// The packet holds a header, not audio.
    Header,
    /// The packet cannot be decoded.
    Damaged,
}

/// The packet to decode, or why a read of the decoder ends without a frame:
/// the end of the container ends the input, a failed input fails the read,
/// and what is no packet is passed over.
pub fn packet_to_decode(outcome: PacketOutcome) -> (res: Result<Vec<u8>, PcmReadError>)
    ensures
        match outcome {
            PacketOutcome::Packet(data) => res == Ok::<Vec<u8>, PcmReadError>(data),
            PacketOutcome::End => res matches Err(PcmReadError::Eof),
            PacketOutcome::Failed(e) => res == Err::<Vec<u8>, PcmReadError>(PcmReadError::Io(e)),
            PacketOutcome::Damaged => res matches Err(PcmReadError::SkippedData),
        },
{
    match outcome {
        PacketOutcome::Packet(data) => Ok(data),
        PacketOutcome::End => Err(PcmReadError::Eof),
        PacketOutcome::Failed(e) => Err(PcmReadError::Io(e)),
        PacketOutcome::Damaged => Err(PcmReadError::SkippedData),
    }
}

/// The frame for one decoded packet, as `frame_from_planes` builds it. A
/// header packet and one that cannot be decoded are passed over.
pub fn decoded_frame(sample_rate: usize, outcome: DecodeOutcome) -> (res: Result<
    PcmData,
    PcmReadError,
>)
    ensures
        match outcome {
            DecodeOutcome::Planes(planes) => {
                &&& (sample_rate == 0 || planes@.len() == 0) <==> res is Err
                &&& res matches Err(e) ==> e is MalformedFrame
                &&& res matches Ok(pcm) ==> {
                    &&& pcm.sample_rate == sample_rate
                    &&& pcm.channels == planes@.len()
                    &&& pcm.samples@ == interleaved(plane_views(planes@))
                    &&& pcm.wf()
                }
            },
            DecodeOutcome::Header => res matches Err(PcmReadError::SkippedData),
            DecodeOutcome::Damaged => res matches Err(PcmReadError::SkippedData),
        },
{
    match outcome {
        DecodeOutcome::Planes(planes) => frame_from_planes(sample_rate, &planes),
        DecodeOutcome::Header => Err(PcmReadError::SkippedData),
        DecodeOutcome::Damaged => Err(PcmReadError::SkippedData),
    }
}

} // verus!
