use oggly_rusty::error::EngineError;
use oggly_rusty::gain::{apply_gain, apply_gain_chunk, gain_one};
use oggly_rusty::params::PlaybackParameters;
use oggly_rusty::pcm::{deinterleave, interleave};
use oggly_rusty::retime::{copy_frame, retime};
use oggly_rusty::ring::RingBuffer;
use oggly_rusty::session::{chunk_fits, silent_frame, Offer, PlaybackSession, PlaybackState};

fn mono(samples: &[i16]) -> Vec<Vec<i16>> {
    samples.iter().map(|s| vec![*s]).collect()
}

fn ramp(n: usize) -> Vec<Vec<i16>> {
    (0..n).map(|i| vec![(i % 30000) as i16]).collect()
}

#[test]
fn gain_scales_and_rounds_toward_zero() {
    assert_eq!(apply_gain(&vec![1000, -1000, 32767, 3, -3], 500), vec![500, -500, 16383, 1, -1]);
}

#[test]
fn gain_clips_instead_of_wrapping() {
    assert_eq!(apply_gain(&vec![20000, -20000, 100], 2000), vec![32767, -32768, 200]);
    assert_eq!(gain_one(i16::MIN, u64::MAX), i16::MIN);
    assert_eq!(gain_one(i16::MAX, u64::MAX), i16::MAX);
    assert_eq!(gain_one(1, u64::MAX), i16::MAX);
}

#[test]
fn gain_zero_volume_is_silence() {
    assert_eq!(apply_gain(&vec![i16::MIN, -1, 0, 1, i16::MAX], 0), vec![0, 0, 0, 0, 0]);
}

#[test]
fn gain_unit_volume_keeps_samples() {
    let frame = vec![i16::MIN, -7, 0, 7, i16::MAX];
    assert_eq!(apply_gain(&frame, 1000), frame);
}

#[test]
fn gain_output_stays_in_range_for_many_volumes() {
    let frame: Vec<i16> = vec![i16::MIN, -12345, -1, 0, 1, 12345, i16::MAX];
    for volume in [0u64, 1, 999, 1000, 1001, 2500, 1_000_000, u64::MAX] {
        let out = apply_gain(&frame, volume);
        assert_eq!(out.len(), frame.len());
        for (s, o) in frame.iter().zip(out.iter()) {
            let exact = (*s as i128) * (volume as i128) / 1000;
            let clipped = exact.clamp(i16::MIN as i128, i16::MAX as i128);
            assert_eq!(*o as i128, clipped);
        }
    }
}

#[test]
fn gain_chunk_keeps_frame_order() {
    let chunk = vec![vec![10, -10], vec![20, -20]];
    assert_eq!(apply_gain_chunk(&chunk, 1500), vec![vec![15, -15], vec![30, -30]]);
}

#[test]
fn retime_unit_speed_is_identity() {
    let frames = vec![vec![1, 2], vec![3, 4], vec![5, 6]];
    assert_eq!(retime(&frames, 1000), frames);
}

#[test]
fn retime_double_speed_halves() {
    let frames = ramp(10);
    assert_eq!(retime(&frames, 2000), mono(&[0, 2, 4, 6, 8]));
}

#[test]
fn retime_half_speed_repeats_frames() {
    assert_eq!(retime(&mono(&[7, 8, 9]), 500), mono(&[7, 7, 8, 8, 9, 9]));
}

#[test]
fn retime_triple_speed_rounds_down() {
    assert_eq!(retime(&ramp(10), 3000), mono(&[0, 3, 6]));
}

#[test]
fn retime_empty_input() {
    assert_eq!(retime(&Vec::new(), 1500), Vec::<Vec<i16>>::new());
}

#[test]
fn retime_length_within_rounding() {
    for n in [0usize, 1, 7, 100, 1001] {
        for speed in [1u64, 250, 999, 1000, 1001, 1500, 2000, 7777, 100_000] {
            let out = retime(&ramp(n), speed);
            let m = out.len() as u128;
            let target = n as u128 * 1000;
            assert!(m * speed as u128 <= target);
            assert!(target < (m + 1) * speed as u128);
        }
    }
}

#[test]
fn copy_frame_copies() {
    assert_eq!(copy_frame(&vec![1, -2, 3]), vec![1, -2, 3]);
}

#[test]
fn params_reject_nonpositive_speed() {
    assert_eq!(PlaybackParameters::new(1000, -1000), Err(EngineError::InvalidParameter));
    assert_eq!(PlaybackParameters::new(1000, 0), Err(EngineError::InvalidParameter));
    assert_eq!(PlaybackParameters::new(-1, 1000), Err(EngineError::InvalidParameter));
    let p = PlaybackParameters::new(0, 1).unwrap();
    assert_eq!(p.volume_milli, 0);
    assert_eq!(p.speed_milli, 1);
    let d = PlaybackParameters::default_params();
    assert_eq!((d.volume_milli, d.speed_milli), (1000, 1000));
}

#[test]
fn error_kinds() {
    assert!(EngineError::IoFailure.is_terminal());
    assert!(EngineError::UnsupportedFormat.is_terminal());
    assert!(EngineError::CorruptStream.is_terminal());
    assert!(EngineError::DeviceUnavailable.is_terminal());
    assert!(!EngineError::InvalidParameter.is_terminal());
    assert!(!EngineError::BufferFull.is_terminal());
    assert_eq!(EngineError::IoFailure.message(), "audio source could not be read");
}

#[test]
fn ring_keeps_order_across_wraparound() {
    let mut b = RingBuffer::new(4);
    assert_eq!(b.capacity(), 4);
    assert_eq!(b.push(&mono(&[1, 2, 3])), Ok(()));
    assert_eq!(b.pop(2), mono(&[1, 2]));
    assert_eq!(b.push(&mono(&[4, 5, 6])), Ok(()));
    assert_eq!(b.len(), 4);
    assert_eq!(b.room(), 0);
    assert_eq!(b.pop(10), mono(&[3, 4, 5, 6]));
    assert_eq!(b.len(), 0);
}

#[test]
fn ring_full_push_fails_and_changes_nothing() {
    let mut b = RingBuffer::new(3);
    assert_eq!(b.push(&mono(&[1, 2])), Ok(()));
    assert_eq!(b.push(&mono(&[3, 4])), Err(EngineError::BufferFull));
    assert_eq!(b.len(), 2);
    assert_eq!(b.pop(3), mono(&[1, 2]));
}

#[test]
fn ring_pop_on_empty_returns_nothing() {
    let mut b = RingBuffer::new(2);
    assert_eq!(b.pop(5), Vec::<Vec<i16>>::new());
    let mut z = RingBuffer::new(0);
    assert_eq!(z.push(&Vec::new()), Ok(()));
    assert_eq!(z.push(&mono(&[1])), Err(EngineError::BufferFull));
    assert_eq!(z.pop(1), Vec::<Vec<i16>>::new());
}

#[test]
fn ring_interleaved_push_pop_is_prefix_of_pushed() {
    let mut b = RingBuffer::new(5);
    let mut pushed: Vec<Vec<i16>> = Vec::new();
    let mut popped: Vec<Vec<i16>> = Vec::new();
    let mut next: i16 = 0;
    for step in 0..200usize {
        let want = step % 4;
        let batch: Vec<Vec<i16>> = (0..want).map(|k| vec![next + k as i16]).collect();
        if b.push(&batch).is_ok() {
            next += want as i16;
            pushed.extend(batch);
        }
        popped.extend(b.pop(step % 3));
        assert_eq!(&pushed[..popped.len()], &popped[..]);
    }
}

#[test]
fn silence_and_chunk_checks() {
    assert_eq!(silent_frame(3), vec![0, 0, 0]);
    assert!(chunk_fits(&vec![vec![1, 2], vec![3, 4]], 2));
    assert!(!chunk_fits(&vec![vec![1, 2], vec![3]], 2));
}

/// Plays `source` through a session, pulling `pull` frames whenever the
/// queue is full, and returns the session and every real frame output.
fn run(source: &Vec<Vec<i16>>, volume: i64, speed: i64, chunk: usize, pull: usize) -> (PlaybackSession, Vec<Vec<i16>>) {
    let mut s = PlaybackSession::new(4000);
    assert_eq!(s.play(volume, speed), Ok(()));
    assert_eq!(s.state(), PlaybackState::Loading);
    assert_eq!(s.open(1, 8000, true), Ok(()));
    assert!(s.device_open());
    let mut heard: Vec<Vec<i16>> = Vec::new();
    for part in source.chunks(chunk) {
        let part = part.to_vec();
        loop {
            match s.offer(&part).unwrap() {
                Offer::Accepted => break,
                Offer::Wait => {
                    let before = s.frames_output();
                    let out = s.pull(pull);
                    let real = (s.frames_output() - before) as usize;
                    heard.extend(out.into_iter().take(real));
                }
                Offer::Closed => panic!("closed while producing"),
            }
        }
    }
    s.end_of_stream();
    while s.state() == PlaybackState::Draining {
        let before = s.frames_output();
        let out = s.pull(pull);
        assert_eq!(out.len(), pull);
        let real = (s.frames_output() - before) as usize;
        heard.extend(out.into_iter().take(real));
    }
    (s, heard)
}

#[test]
fn scenario_default_playback_outputs_every_frame() {
    let source = ramp(16000);
    let (s, heard) = run(&source, 1000, 1000, 1000, 512);
    assert_eq!(s.state(), PlaybackState::Stopped);
    assert_eq!(s.frames_output(), 16000);
    assert_eq!(heard, source);
    assert!(!s.device_open());
    assert_eq!(s.buffered_len(), 0);
    assert_eq!(s.failure(), None);
}

#[test]
fn scenario_double_speed_takes_half_as_long() {
    let source = ramp(16000);
    let (a, _) = run(&source, 1000, 1000, 1000, 512);
    let (b, heard) = run(&source, 1000, 2000, 1000, 512);
    assert_eq!(b.state(), PlaybackState::Stopped);
    assert_eq!(b.frames_output() * 2, a.frames_output());
    assert_eq!(heard[1], vec![2]);
}

#[test]
fn scenario_negative_speed_rejected_before_loading() {
    let mut s = PlaybackSession::new(100);
    assert_eq!(s.play(1000, -1000), Err(EngineError::InvalidParameter));
    assert_eq!(s.state(), PlaybackState::Idle);
    assert!(!s.device_open());
}

#[test]
fn scenario_source_fails_mid_stream() {
    let mut s = PlaybackSession::new(16000);
    s.play(1000, 1000).unwrap();
    s.open(1, 8000, true).unwrap();
    let source = ramp(8000);
    for part in source.chunks(1000) {
        assert_eq!(s.offer(&part.to_vec()), Ok(Offer::Accepted));
    }
    assert_eq!(s.buffered_len(), 8000);
    s.fail(EngineError::IoFailure);
    assert_eq!(s.state(), PlaybackState::Failed);
    assert_eq!(s.failure(), Some(EngineError::IoFailure));
    assert!(!s.device_open());
    assert_eq!(s.buffered_len(), 0);
    assert_eq!(s.offer(&mono(&[1])), Ok(Offer::Closed));
    s.stop();
    assert_eq!(s.state(), PlaybackState::Failed);
}

#[test]
fn stop_reaches_stopped_from_every_live_state() {
    let mut idle = PlaybackSession::new(10);
    idle.stop();
    assert_eq!(idle.state(), PlaybackState::Stopped);

    let mut loading = PlaybackSession::new(10);
    loading.play(1000, 1000).unwrap();
    loading.stop();
    assert_eq!(loading.state(), PlaybackState::Stopped);

    for pause in [false, true] {
        let mut s = PlaybackSession::new(10);
        s.play(1000, 1000).unwrap();
        s.open(1, 8000, true).unwrap();
        s.offer(&mono(&[1, 2, 3])).unwrap();
        if pause {
            s.pause();
            assert_eq!(s.state(), PlaybackState::Paused);
        }
        s.stop();
        assert_eq!(s.state(), PlaybackState::Draining);
        s.stop();
        assert_eq!(s.state(), PlaybackState::Draining);
        assert_eq!(s.pull(2), mono(&[1, 2]));
        assert_eq!(s.state(), PlaybackState::Draining);
        assert_eq!(s.pull(2), mono(&[3, 0]));
        assert_eq!(s.state(), PlaybackState::Stopped);
        assert!(!s.device_open());
    }
}

#[test]
fn exhaustion_never_fails() {
    let mut s = PlaybackSession::new(10);
    s.play(1000, 1000).unwrap();
    s.open(2, 44100, true).unwrap();
    s.end_of_stream();
    assert_eq!(s.state(), PlaybackState::Stopped);
    assert_eq!(s.failure(), None);
}

#[test]
fn pause_outputs_silence_and_resume_continues() {
    let mut s = PlaybackSession::new(10);
    s.play(1000, 1000).unwrap();
    s.open(2, 8000, true).unwrap();
    assert_eq!(s.channels(), 2);
    assert_eq!(s.sample_rate(), 8000);
    s.offer(&vec![vec![1, 2], vec![3, 4]]).unwrap();
    s.pause();
    assert_eq!(s.offer(&vec![vec![5, 6]]), Ok(Offer::Wait));
    assert_eq!(s.pull(1), vec![vec![0, 0]]);
    assert_eq!(s.buffered_len(), 2);
    s.resume();
    assert_eq!(s.state(), PlaybackState::Playing);
    assert_eq!(s.pull(3), vec![vec![1, 2], vec![3, 4], vec![0, 0]]);
    assert_eq!(s.frames_output(), 2);
}

#[test]
fn full_queue_makes_producer_wait() {
    let mut s = PlaybackSession::new(3);
    s.play(1000, 1000).unwrap();
    s.open(1, 8000, true).unwrap();
    assert_eq!(s.offer(&mono(&[1, 2])), Ok(Offer::Accepted));
    assert_eq!(s.offer(&mono(&[3, 4])), Ok(Offer::Wait));
    assert_eq!(s.buffered_len(), 2);
    assert_eq!(s.pull(1), mono(&[1]));
    assert_eq!(s.offer(&mono(&[3, 4])), Ok(Offer::Accepted));
    assert_eq!(s.pull(5), mono(&[2, 3, 4, 0, 0]));
}

#[test]
fn live_volume_and_speed_apply_to_next_chunk() {
    let mut s = PlaybackSession::new(100);
    s.play(1000, 1000).unwrap();
    s.open(1, 8000, true).unwrap();
    s.offer(&mono(&[100, 200])).unwrap();
    assert_eq!(s.set_volume(-5), Err(EngineError::InvalidParameter));
    assert_eq!(s.set_speed(0), Err(EngineError::InvalidParameter));
    assert_eq!(s.set_volume(500), Ok(()));
    assert_eq!(s.set_speed(2000), Ok(()));
    assert_eq!(s.params().volume_milli, 500);
    assert_eq!(s.params().speed_milli, 2000);
    s.offer(&mono(&[100, 200, 300, 400])).unwrap();
    assert_eq!(s.pull(4), mono(&[100, 200, 50, 150]));
}

#[test]
fn corrupt_chunk_fails_session() {
    let mut s = PlaybackSession::new(10);
    s.play(1000, 1000).unwrap();
    s.open(2, 8000, true).unwrap();
    s.offer(&vec![vec![1, 1]]).unwrap();
    assert_eq!(s.offer(&vec![vec![1, 2], vec![3]]), Err(EngineError::CorruptStream));
    assert_eq!(s.state(), PlaybackState::Failed);
    assert_eq!(s.failure(), Some(EngineError::CorruptStream));
    assert_eq!(s.buffered_len(), 0);
}

#[test]
fn bad_format_and_missing_device_fail() {
    let mut s = PlaybackSession::new(10);
    s.play(1000, 1000).unwrap();
    assert_eq!(s.open(0, 8000, true), Err(EngineError::UnsupportedFormat));
    assert_eq!(s.state(), PlaybackState::Failed);

    let mut d = PlaybackSession::new(10);
    d.play(1000, 1000).unwrap();
    assert_eq!(d.open(1, 8000, false), Err(EngineError::DeviceUnavailable));
    assert_eq!(d.failure(), Some(EngineError::DeviceUnavailable));
    assert!(!d.device_open());
}

#[test]
fn non_fault_errors_do_not_end_session() {
    let mut s = PlaybackSession::new(10);
    s.play(1000, 1000).unwrap();
    s.open(1, 8000, true).unwrap();
    s.fail(EngineError::BufferFull);
    s.fail(EngineError::InvalidParameter);
    assert_eq!(s.state(), PlaybackState::Playing);
}

#[test]
fn pull_never_waits_for_the_producer() {
    let mut s = PlaybackSession::new(8);
    assert_eq!(s.pull(3), vec![Vec::<i16>::new(); 3]);
    s.play(1000, 1000).unwrap();
    s.open(2, 8000, true).unwrap();
    assert_eq!(s.pull(2), vec![vec![0, 0], vec![0, 0]]);
    s.pause();
    assert_eq!(s.pull(2), vec![vec![0, 0], vec![0, 0]]);
    s.resume();
    s.offer(&vec![vec![5, 5]]).unwrap();
    s.stop();
    assert_eq!(s.pull(3), vec![vec![5, 5], vec![0, 0], vec![0, 0]]);
    assert_eq!(s.state(), PlaybackState::Stopped);
    assert_eq!(s.pull(1), vec![vec![0, 0]]);
    assert_eq!(s.frames_output(), 1);
}

#[test]
fn error_messages() {
    assert_eq!(EngineError::UnsupportedFormat.message(), "unsupported audio format");
    assert_eq!(EngineError::CorruptStream.message(), "corrupt audio stream");
    assert_eq!(EngineError::InvalidParameter.message(), "invalid playback parameter");
    assert_eq!(EngineError::DeviceUnavailable.message(), "output device unavailable");
    assert_eq!(EngineError::BufferFull.message(), "frame buffer is full");
}

#[test]
fn deinterleave_groups_frames() {
    assert_eq!(deinterleave(&vec![1, 2, 3, 4, 5, 6], 2), Ok(vec![vec![1, 2], vec![3, 4], vec![5, 6]]));
    assert_eq!(deinterleave(&vec![1, 2, 3], 1), Ok(mono(&[1, 2, 3])));
    assert_eq!(deinterleave(&Vec::new(), 2), Ok(Vec::new()));
}

#[test]
fn deinterleave_rejects_bad_layouts() {
    assert_eq!(deinterleave(&vec![1, 2, 3], 2), Err(EngineError::CorruptStream));
    assert_eq!(deinterleave(&vec![1, 2], 0), Err(EngineError::UnsupportedFormat));
}

#[test]
fn interleave_round_trip() {
    let frames = vec![vec![1, -1], vec![2, -2], vec![3, -3]];
    let flat = interleave(&frames);
    assert_eq!(flat, vec![1, -1, 2, -2, 3, -3]);
    assert_eq!(deinterleave(&flat, 2), Ok(frames));
    assert_eq!(interleave(&Vec::new()), Vec::<i16>::new());
}
