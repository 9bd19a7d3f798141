use edicast::audio::decode::PcmReadError;
use edicast::audio::PcmData;
use edicast::config::OfflineBehaviour;
use edicast::pacing::Elapsed;
use edicast::session::{Action, Session};
use edicast::source::{offline_action, OfflineAction, SilenceSchedule, Wakeup};
use std::time::Duration;

fn frame(sample_rate: usize, channels: usize, first: i16, count: usize) -> PcmData {
    let samples: Vec<i16> = (0..count).map(|i| first + i as i16).collect();
    PcmData { sample_rate, channels, samples }
}

#[test]
fn elapsed_starts_at_zero() {
    let t = Elapsed::zero();
    assert_eq!((t.numer, t.denom), (0, 1));
    assert_eq!(t.whole_nanos(), Some(0));
}

#[test]
fn elapsed_sum_is_in_lowest_terms() {
    // 1152 samples at 44100 Hz: 1152/44100 = 32/1225
    let t = Elapsed::zero().plus_frames(1152, 44100).unwrap();
    assert_eq!((t.numer, t.denom), (32, 1225));
    // twice that: 64/1225
    let t = t.plus_frames(1152, 44100).unwrap();
    assert_eq!((t.numer, t.denom), (64, 1225));
    // and a quarter of a second at 8 kHz: 64/1225 + 1/4 = 1481/4900
    let t = t.plus_frames(2000, 8000).unwrap();
    assert_eq!((t.numer, t.denom), (1481, 4900));
}

#[test]
fn elapsed_adds_up_without_drift() {
    let mut t = Elapsed::zero();
    for _ in 0..44100 {
        t = t.plus_frames(1, 44100).unwrap();
    }
    assert_eq!((t.numer, t.denom), (1, 1));
    assert_eq!(t.whole_nanos(), Some(1_000_000_000));
}

#[test]
fn whole_nanos_round_down() {
    let third = Elapsed { numer: 1, denom: 3 };
    assert_eq!(third.whole_nanos(), Some(333_333_333));
    let t = Elapsed { numer: 32, denom: 1225 };
    assert_eq!(t.whole_nanos(), Some(26_122_448));
}

#[test]
fn whole_nanos_reach_as_far_as_the_denominator_lets_them() {
    // twenty seconds and a billionth: the billion cancels against the denominator
    let t = Elapsed { numer: 20_000_000_001, denom: 1_000_000_000 };
    assert_eq!(t.whole_nanos(), Some(20_000_000_001));
    // a hundred days at 1/1225 s: 1e9 / 25 times the numerator still fits
    let t = Elapsed { numer: 8_640_000 * 1225 + 1, denom: 1225 };
    assert_eq!(t.whole_nanos(), Some(8_640_000_000_816_326));
    // in whole seconds nothing cancels
    let t = Elapsed { numer: 18_446_744_074, denom: 1 };
    assert_eq!(t.whole_nanos(), None);
    let t = Elapsed { numer: 18_446_744_073, denom: 1 };
    assert_eq!(t.whole_nanos(), Some(18_446_744_073_000_000_000));
}

#[test]
fn elapsed_gives_up_beyond_64_bits() {
    let big = Elapsed { numer: u64::MAX, denom: 1 };
    assert!(big.plus_frames(1, 1).is_none());
    assert!(big.whole_nanos().is_none());
    let fine = Elapsed { numer: u64::MAX - 1, denom: 1 };
    let t = fine.plus_frames(1, 1).unwrap();
    assert_eq!((t.numer, t.denom), (u64::MAX, 1));
    let wide = Elapsed { numer: 1, denom: u64::MAX };
    assert!(wide.plus_frames(1, 2).is_none());
}

#[test]
fn session_cuts_batches_and_keeps_the_rest() {
    // 10 ms at 1000 Hz stereo: 10 samples per channel, 20 samples a batch
    let mut session = Session::new();
    let batches = session.absorb(frame(1000, 2, 0, 50), 10).unwrap();
    assert_eq!(batches.len(), 2);
    assert_eq!(batches[0].samples, (0..20).collect::<Vec<i16>>());
    assert_eq!(batches[1].samples, (20..40).collect::<Vec<i16>>());
    for batch in &batches {
        assert_eq!(batch.sample_rate, 1000);
        assert_eq!(batch.channels, 2);
        assert!(batch.is_valid());
    }
    assert_eq!(session.buffer, (40..50).collect::<Vec<i16>>());
    // 25 samples per channel at 1000 Hz
    assert_eq!((session.elapsed.numer, session.elapsed.denom), (1, 40));
    assert_eq!(session.wake_after(), Some(25_000_000));
}

#[test]
fn session_carries_the_rest_into_the_next_frame() {
    let mut session = Session::new();
    let first = session.absorb(frame(1000, 2, 0, 30), 10).unwrap();
    assert_eq!(first.len(), 1);
    assert_eq!(session.buffer.len(), 10);
    let second = session.absorb(frame(1000, 2, 30, 10), 10).unwrap();
    assert_eq!(second.len(), 1);
    assert_eq!(second[0].samples, (20..40).collect::<Vec<i16>>());
    assert!(session.buffer.is_empty());
    assert_eq!((session.elapsed.numer, session.elapsed.denom), (1, 50));
}

#[test]
fn session_publishes_a_batch_that_is_exactly_full() {
    let mut session = Session::new();
    let batches = session.absorb(frame(1000, 1, 0, 10), 10).unwrap();
    assert_eq!(batches.len(), 1);
    assert_eq!(batches[0].samples.len(), 10);
    assert!(session.buffer.is_empty());
}

#[test]
fn session_holds_back_less_than_a_batch() {
    let mut session = Session::new();
    let batches = session.absorb(frame(44100, 2, 0, 100), 1000).unwrap();
    assert!(batches.is_empty());
    assert_eq!(session.buffer.len(), 100);
}

#[test]
fn session_cuts_no_batch_of_no_samples() {
    // 1 ms at 500 Hz is less than one sample
    let mut session = Session::new();
    let batches = session.absorb(frame(500, 2, 0, 8), 1).unwrap();
    assert!(batches.is_empty());
    assert!(session.buffer.is_empty());
    assert_eq!((session.elapsed.numer, session.elapsed.denom), (1, 125));
}

#[test]
fn read_outcomes_decide_the_next_step() {
    let mut session = Session::new();
    assert!(matches!(session.on_read(Err(PcmReadError::Eof), 10), Action::Finish));
    assert!(matches!(session.on_read(Err(PcmReadError::SkippedData), 10), Action::Skip));
    assert!(matches!(session.on_read(Err(PcmReadError::MalformedFrame), 10), Action::Skip));
    let failure = std::io::Error::new(std::io::ErrorKind::BrokenPipe, "gone");
    match session.on_read(Err(PcmReadError::Io(failure)), 10) {
        Action::Fail(e) => assert_eq!(e.kind(), std::io::ErrorKind::BrokenPipe),
        _ => panic!("an input failure must end the session"),
    }
    match session.on_read(Ok(frame(1000, 2, 0, 20)), 10) {
        Action::Publish(batches) => assert_eq!(batches.len(), 1),
        _ => panic!("a frame must be taken in"),
    }
    let ragged = PcmData { sample_rate: 1000, channels: 2, samples: vec![1, 2, 3] };
    assert!(matches!(session.on_read(Ok(ragged), 10), Action::Skip));
    assert!(session.buffer.is_empty());
}

#[test]
fn a_clock_that_cannot_move_on_ends_the_session() {
    let mut session = Session::new();
    session.elapsed = Elapsed { numer: u64::MAX, denom: 1 };
    assert!(matches!(session.on_read(Ok(frame(1000, 1, 0, 10)), 10), Action::Overrun));
    assert!(session.buffer.is_empty());
    assert_eq!(session.elapsed.numer, u64::MAX);
}

#[test]
fn offline_worker_acts_on_what_woke_it() {
    assert_eq!(offline_action(OfflineBehaviour::Silence, Wakeup::Timeout), OfflineAction::PublishSilence);
    assert_eq!(offline_action(OfflineBehaviour::Silence, Wakeup::Admitted), OfflineAction::RunSession);
    assert_eq!(offline_action(OfflineBehaviour::Silence, Wakeup::Disconnected), OfflineAction::Exit);
    assert_eq!(offline_action(OfflineBehaviour::Inactive, Wakeup::Timeout), OfflineAction::Idle);
    assert_eq!(offline_action(OfflineBehaviour::Inactive, Wakeup::Admitted), OfflineAction::RunSession);
    assert_eq!(offline_action(OfflineBehaviour::Inactive, Wakeup::Disconnected), OfflineAction::Exit);
}

#[test]
fn silence_deadlines_are_one_buffer_apart() {
    let mut schedule = SilenceSchedule::new(200);
    assert_eq!(schedule.next_deadline(), Some(Duration::from_millis(200)));
    assert_eq!(schedule.next_deadline(), Some(Duration::from_millis(400)));
    assert_eq!(schedule.next_deadline(), Some(Duration::from_millis(600)));
    assert_eq!(schedule.waited_ms, 600);
}

#[test]
fn silence_schedule_stops_at_the_end_of_its_range() {
    let mut schedule = SilenceSchedule { buffer_ms: 10, waited_ms: u64::MAX - 5 };
    assert_eq!(schedule.next_deadline(), None);
    assert_eq!(schedule.waited_ms, u64::MAX - 5);
}
