use std::io::Cursor;

use audio_engine::config::StreamConfig;
use audio_engine::errors::AudioError;
use audio_engine::format::SampleFormat;
use audio_engine::recording::{record_step, RecordEvent, RecordingSession};
use audio_engine::stop::{StopRecording, StopSignal};

fn f32_config() -> StreamConfig {
    StreamConfig {
        sample_rate: 44100,
        channels: 1,
        format: SampleFormat::F32,
    }
}

#[test]
fn session_header_is_derived_from_the_source_format() {
    let s = RecordingSession::new(&f32_config(), "recorded.wav".to_string());
    assert_eq!(s.wav.channels, 1);
    assert_eq!(s.wav.sample_rate, 44100);
    assert_eq!(s.wav.bits_per_sample, 32);
    assert!(s.wav.float);

    let cfg = StreamConfig {
        sample_rate: 48000,
        channels: 2,
        format: SampleFormat::I16,
    };
    let s = RecordingSession::new(&cfg, "recorded.wav".to_string());
    assert_eq!(s.wav.bits_per_sample, 16);
    assert!(!s.wav.float);
}

#[test]
fn buffers_are_appended_in_delivery_order() {
    let mut s = RecordingSession::new(&f32_config(), "recorded.wav".to_string());
    s.append_buffer(&vec![1, 2], true);
    s.append_buffer(&vec![3], true);
    s.append_buffer(&vec![4, 5], true);
    s.detach_stream();
    let fin = s.finalize().unwrap();
    assert_eq!(fin.samples, vec![1, 2, 3, 4, 5]);
    assert_eq!(fin.path, "recorded.wav");
}

#[test]
fn a_contended_buffer_is_dropped_not_blocked_on() {
    let mut s = RecordingSession::new(&f32_config(), "recorded.wav".to_string());
    s.append_buffer(&vec![1, 2], true);
    s.append_buffer(&vec![9, 9], false);
    s.append_buffer(&vec![3], true);
    s.detach_stream();
    let fin = s.finalize().unwrap();
    assert_eq!(fin.samples, vec![1, 2, 3]);
}

#[test]
fn buffers_after_stream_teardown_never_reach_the_writer() {
    let mut s = RecordingSession::new(&f32_config(), "recorded.wav".to_string());
    s.append_buffer(&vec![1], true);
    s.detach_stream();
    s.append_buffer(&vec![2], true);
    let fin = s.finalize().unwrap();
    assert_eq!(fin.samples, vec![1]);
}

#[test]
fn finalize_runs_exactly_once() {
    let mut s = RecordingSession::new(&f32_config(), "recorded.wav".to_string());
    s.append_buffer(&vec![1], true);
    s.detach_stream();
    let first = s.finalize();
    assert!(first.is_some());
    let second = s.finalize();
    assert!(second.is_none());
    // Nothing reaches a finalized session's writer either.
    s.append_buffer(&vec![2], true);
    assert!(s.finalize().is_none());
}

#[test]
fn record_steps_complete_only_on_stop() {
    let mut s = RecordingSession::new(&f32_config(), "recorded.wav".to_string());
    for k in 0..100u32 {
        let done = record_step(
            &mut s,
            RecordEvent::Buffer {
                samples: vec![k],
                lock_won: true,
            },
        );
        assert!(done.is_none());
        assert!(s.stream_live);
    }
    let done = record_step(&mut s, RecordEvent::Stop);
    let fin = done.unwrap();
    assert_eq!(fin.samples.len(), 100);
    let expected: Vec<u32> = (0..100u32).collect();
    assert_eq!(fin.samples, expected);
    assert!(!s.stream_live);
}

#[test]
fn stop_signal_fires_once_and_double_send_is_refused() {
    let mut stop = StopSignal::new();
    assert!(!stop.try_receive());
    assert_eq!(stop.send(StopRecording::new()), Ok(()));
    assert_eq!(
        stop.send(StopRecording::new()),
        Err(AudioError::DoubleStop)
    );
    assert!(stop.try_receive());
    assert!(!stop.try_receive());
    assert_eq!(
        stop.send(StopRecording::new()),
        Err(AudioError::DoubleStop)
    );
    assert_eq!(
        AudioError::DoubleStop.message(),
        "stop was signalled more than once"
    );
}

#[test]
fn unobstructed_samples_survive_the_wav_round_trip() {
    let delivered: Vec<f32> = vec![0.0, 0.25, -0.5, 1.0, -1.0, 0.125];
    let bits: Vec<u32> = delivered.iter().map(|x| x.to_bits()).collect();

    let mut s = RecordingSession::new(&f32_config(), "recorded.wav".to_string());
    s.append_buffer(&bits[0..2].to_vec(), true);
    s.append_buffer(&bits[2..6].to_vec(), true);
    s.detach_stream();
    let fin = s.finalize().unwrap();
    assert_eq!(fin.samples, bits);

    let spec = hound::WavSpec {
        channels: fin.wav.channels,
        sample_rate: fin.wav.sample_rate,
        bits_per_sample: fin.wav.bits_per_sample,
        sample_format: if fin.wav.float {
            hound::SampleFormat::Float
        } else {
            hound::SampleFormat::Int
        },
    };
    let mut cursor = Cursor::new(Vec::new());
    {
        let mut writer = hound::WavWriter::new(&mut cursor, spec).unwrap();
        for &b in fin.samples.iter() {
            writer.write_sample(f32::from_bits(b)).unwrap();
        }
        writer.finalize().unwrap();
    }
    cursor.set_position(0);
    let mut reader = hound::WavReader::new(cursor).unwrap();
    let back_spec = reader.spec();
    assert_eq!(back_spec.bits_per_sample, 32);
    assert_eq!(back_spec.sample_format, hound::SampleFormat::Float);
    assert_eq!(back_spec.channels, 1);
    assert_eq!(back_spec.sample_rate, 44100);
    let back: Vec<f32> = reader.samples::<f32>().map(|r| r.unwrap()).collect();
    assert_eq!(back.len(), delivered.len());
    for (a, b) in back.iter().zip(delivered.iter()) {
        assert_eq!(a.to_bits(), b.to_bits());
    }
}
