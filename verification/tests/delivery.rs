use audio_capture::buffer::CaptureBuffer;
use audio_capture::controller::CaptureState;
use audio_capture::delivery::{plan_tick, TickPlan};
use audio_capture::devices::AudioDevice;
use audio_capture::normalizer::{normalize, RawSample, Sample};
use audio_capture::session::{HostSampleFormat, SampleFormat, SupportedConfigRange};

#[test]
fn tick_with_stop_requested_exits() {
    let p = plan_tick(true, vec![Sample::Fixed(1)], 2, 48000);
    assert!(matches!(p, TickPlan::Exit));
}

#[test]
fn tick_with_empty_drain_sleeps() {
    let p = plan_tick(false, Vec::new(), 2, 48000);
    assert!(matches!(p, TickPlan::Sleep));
}

#[test]
fn tick_with_samples_emits_a_tagged_batch() {
    let drained = vec![Sample::Fixed(3), Sample::Fixed(-7)];
    let p = plan_tick(false, drained.clone(), 2, 48000);
    match p {
        TickPlan::Emit(batch) => {
            assert_eq!(batch.samples, drained);
            assert_eq!(batch.channel_count, 2);
            assert_eq!(batch.sample_rate, 48000);
        }
        _ => panic!("expected an emission"),
    }
}

#[test]
fn first_batch_of_a_default_f32_session_is_tagged_and_non_empty() {
    // A host exposing only a default device at 48000 Hz / 2 channels / F32:
    // start without a selector, feed the callback, and take the first tick.
    let devices = vec![AudioDevice {
        id: String::from("Built-in Input"),
        name: String::from("Built-in Input"),
    }];
    let configs = vec![vec![SupportedConfigRange {
        channels: 2,
        min_sample_rate: 48000,
        max_sample_rate: 48000,
        format: HostSampleFormat::F32,
    }]];
    let mut state = CaptureState::new();
    let (device_index, cfg) = state.start(&devices, &None, Some(0), &configs).unwrap();
    assert_eq!(device_index, 0);
    assert_eq!(cfg.channel_count, 2);
    assert_eq!(cfg.sample_rate, 48000);
    assert_eq!(cfg.sample_format, SampleFormat::F32);

    let mut buf = CaptureBuffer::new();
    for v in [0.25f32, -0.5f32, 0.125f32, 1.0f32] {
        buf.push(normalize(RawSample::F32Bits(v.to_bits())));
    }
    let drained = buf.drain();
    assert!(state.status());
    let p = plan_tick(false, drained, cfg.channel_count, cfg.sample_rate);
    match p {
        TickPlan::Emit(batch) => {
            assert_eq!(batch.channel_count, 2);
            assert_eq!(batch.sample_rate, 48000);
            assert!(!batch.samples.is_empty());
            assert_eq!(batch.samples[0], Sample::Bits(0.25f32.to_bits()));
        }
        _ => panic!("expected the first batch to be emitted"),
    }
}
