use edicast::audio::decode::{
    decoded_frame, frame_from_planes, interleave, packet_to_decode, DecodeOutcome, PacketOutcome,
    PcmReadError,
};
use edicast::audio::encode::{mime_type_from_config, mp3_buffer_size, stereo_planes};
use edicast::audio::PcmData;
use edicast::config::{CodecConfig, Mp3Config};
use std::time::Duration;

#[test]
fn silence_of_one_second_is_stereo_at_44100() {
    let pcm = PcmData::silence(Duration::from_secs(1));
    assert_eq!(pcm.sample_rate, 44100);
    assert_eq!(pcm.channels, 2);
    assert_eq!(pcm.samples.len(), 88200);
    assert!(pcm.samples.iter().all(|s| *s == 0));
    assert!(pcm.is_valid());
}

#[test]
fn silence_rounds_down_to_whole_samples() {
    // 13 ms at 44.1 kHz is 573.3 samples per channel
    let pcm = PcmData::silence(Duration::from_millis(13));
    assert_eq!(pcm.samples.len(), 573 * 2);
    assert!(pcm.is_valid());
}

#[test]
fn silence_of_no_time_is_empty() {
    let pcm = PcmData::silence(Duration::from_millis(0));
    assert_eq!(pcm.samples.len(), 0);
    assert_eq!(pcm.channels, 2);
    assert!(pcm.is_valid());
}

#[test]
fn silence_past_counting_is_not_made() {
    assert!(PcmData::try_silence(Duration::MAX).is_none());
    let pcm = PcmData::try_silence(Duration::from_millis(200)).unwrap();
    assert_eq!(pcm.samples.len(), 8820 * 2);
    assert_eq!((pcm.sample_rate, pcm.channels), (44100, 2));
    assert!(pcm.samples.iter().all(|s| *s == 0));
}

#[test]
fn validity_asks_for_whole_frames() {
    let ok = PcmData { sample_rate: 8000, channels: 2, samples: vec![1, 2, 3, 4] };
    assert!(ok.is_valid());
    let ragged = PcmData { sample_rate: 8000, channels: 2, samples: vec![1, 2, 3] };
    assert!(!ragged.is_valid());
    let no_channels = PcmData { sample_rate: 8000, channels: 0, samples: vec![] };
    assert!(!no_channels.is_valid());
    let no_rate = PcmData { sample_rate: 0, channels: 1, samples: vec![1] };
    assert!(!no_rate.is_valid());
}

#[test]
fn interleave_weaves_planes() {
    let planes = vec![vec![1i16, 2, 3], vec![10, 20, 30]];
    assert_eq!(interleave(&planes), vec![1, 10, 2, 20, 3, 30]);
}

#[test]
fn interleave_cuts_to_the_shortest_plane() {
    let planes = vec![vec![1i16, 2, 3], vec![10, 20], vec![100, 200, 300, 400]];
    assert_eq!(interleave(&planes), vec![1, 10, 100, 2, 20, 200]);
}

#[test]
fn interleave_of_nothing_is_empty() {
    let planes: Vec<Vec<i16>> = vec![];
    assert_eq!(interleave(&planes), Vec::<i16>::new());
    let one_empty = vec![vec![1i16, 2], vec![]];
    assert_eq!(interleave(&one_empty), Vec::<i16>::new());
}

#[test]
fn frame_from_planes_keeps_rate_and_counts_channels() {
    let planes = vec![vec![1i16, 2], vec![3, 4], vec![5, 6]];
    let pcm = frame_from_planes(48000, &planes).ok().unwrap();
    assert_eq!(pcm.sample_rate, 48000);
    assert_eq!(pcm.channels, 3);
    assert_eq!(pcm.samples, vec![1, 3, 5, 2, 4, 6]);
    assert!(pcm.is_valid());
}

#[test]
fn frame_from_planes_refuses_what_is_no_frame() {
    let planes = vec![vec![1i16, 2]];
    assert!(matches!(frame_from_planes(0, &planes), Err(PcmReadError::MalformedFrame)));
    let none: Vec<Vec<i16>> = vec![];
    assert!(matches!(frame_from_planes(44100, &none), Err(PcmReadError::MalformedFrame)));
}

#[test]
fn mono_is_doubled_for_the_encoder() {
    let pcm = PcmData { sample_rate: 44100, channels: 1, samples: vec![5, 6, 7] };
    let (left, right) = stereo_planes(&pcm);
    assert_eq!(left, vec![5, 6, 7]);
    assert_eq!(right, vec![5, 6, 7]);
}

#[test]
fn stereo_is_split_into_planes() {
    let pcm = PcmData { sample_rate: 44100, channels: 2, samples: vec![1, -1, 2, -2, 3, -3] };
    let (left, right) = stereo_planes(&pcm);
    assert_eq!(left, vec![1, 2, 3]);
    assert_eq!(right, vec![-1, -2, -3]);
}

#[test]
fn channels_beyond_stereo_are_left_out() {
    let pcm = PcmData { sample_rate: 44100, channels: 3, samples: vec![1, 2, 3, 4, 5, 6] };
    let (left, right) = stereo_planes(&pcm);
    assert_eq!(left, vec![1, 4]);
    assert_eq!(right, vec![2, 5]);
}

#[test]
fn mp3_buffer_is_five_quarters_plus_headroom() {
    assert_eq!(mp3_buffer_size(0), Some(7200));
    assert_eq!(mp3_buffer_size(1152), Some(1440 + 7200));
    assert_eq!(mp3_buffer_size(7), Some(8 + 7200));
    assert_eq!(mp3_buffer_size(usize::MAX), None);
}

#[test]
fn mp3_is_served_as_audio_mpeg() {
    let config = CodecConfig::Mp3(Mp3Config { bitrate: 128, quality: 2 });
    assert_eq!(mime_type_from_config(&config), "audio/mpeg");
}

#[test]
fn packet_reads_end_fail_or_are_passed_over() {
    assert_eq!(packet_to_decode(PacketOutcome::Packet(vec![1, 2, 3])).ok(), Some(vec![1, 2, 3]));
    assert!(matches!(packet_to_decode(PacketOutcome::End), Err(PcmReadError::Eof)));
    assert!(matches!(packet_to_decode(PacketOutcome::Damaged), Err(PcmReadError::SkippedData)));
    let failure = std::io::Error::new(std::io::ErrorKind::UnexpectedEof, "cut");
    match packet_to_decode(PacketOutcome::Failed(failure)) {
        Err(PcmReadError::Io(e)) => assert_eq!(e.kind(), std::io::ErrorKind::UnexpectedEof),
        _ => panic!("a failed input must fail the read"),
    }
}

#[test]
fn decoded_packets_become_frames_or_are_passed_over() {
    let planes = vec![vec![1i16, 2], vec![3, 4]];
    let pcm = decoded_frame(44100, DecodeOutcome::Planes(planes)).ok().unwrap();
    assert_eq!(pcm.samples, vec![1, 3, 2, 4]);
    assert_eq!((pcm.sample_rate, pcm.channels), (44100, 2));
    assert!(matches!(decoded_frame(44100, DecodeOutcome::Header), Err(PcmReadError::SkippedData)));
    assert!(matches!(decoded_frame(44100, DecodeOutcome::Damaged), Err(PcmReadError::SkippedData)));
    assert!(matches!(
        decoded_frame(44100, DecodeOutcome::Planes(vec![])),
        Err(PcmReadError::MalformedFrame)
    ));
}
