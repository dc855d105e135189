use whispr::engine::{finish_resample, AudioError, AudioManager, Captured};
use whispr::silence::{SilenceConfig, SilenceGate};
use whispr::transform::{mix_to_mono, reduce_channels, stereo_to_mono, DeviceFormat};

fn pcm(x: f32) -> i16 {
    (x * 32768.0).round() as i16
}

fn format(sample_rate: u32, channels: u16) -> DeviceFormat {
    DeviceFormat { sample_rate, channels }
}

fn engine() -> AudioManager {
    AudioManager::new("Built-in Microphone".to_string(), format(16000, 1))
}

fn enabled(threshold: u16, min_silence_duration: usize) -> SilenceConfig {
    SilenceConfig { enabled: true, threshold, min_silence_duration }
}

/// Runs one session: start, deliver the blocks through a fresh filter, stop.
fn capture(manager: &mut AudioManager, fmt: DeviceFormat, blocks: &[Vec<i16>]) {
    let mut filter = manager.new_session_gate();
    manager.start_capture(fmt);
    for block in blocks {
        let kept = filter.filter_block(block);
        manager.append_captured(&kept);
    }
    manager.stop_capture();
}

fn drained_samples(manager: &mut AudioManager, rate: u32, channels: u16) -> Option<Vec<i16>> {
    match manager.get_captured_audio(rate, channels) {
        None => None,
        Some(Captured::Samples(v)) => Some(v),
        Some(Captured::Resample(_)) => panic!("unexpected rate conversion"),
    }
}

#[test]
fn quiet_run_scenario_keeps_four_samples() {
    let mut filter = SilenceGate::new(enabled(pcm(0.1) as u16, 3));
    let input = vec![pcm(0.5), pcm(0.05), pcm(0.05), pcm(0.05), pcm(0.05), pcm(0.5)];
    let kept = filter.filter_block(&input);
    assert_eq!(kept, vec![pcm(0.5), pcm(0.05), pcm(0.05), pcm(0.5)]);
    assert_eq!(kept.len(), 4);
}

#[test]
fn disabled_filter_retains_concatenation_of_blocks() {
    let mut manager = engine();
    let blocks = vec![vec![0, 0, 0], vec![32767, -32768], vec![], vec![5, 0, -5]];
    capture(&mut manager, format(16000, 1), &blocks);
    let all: Vec<i16> = blocks.concat();
    assert_eq!(drained_samples(&mut manager, 16000, 1), Some(all));
}

#[test]
fn quiet_run_drops_from_the_dth_sample_until_sound() {
    let mut filter = SilenceGate::new(enabled(100, 4));
    let input = vec![10, -20, 30, -40, 50, 60, -100, 101, -7];
    let kept = filter.filter_block(&input);
    // the fourth quiet sample closes the filter; -100 is at the threshold,
    // so still quiet; 101 reopens it and -7 starts a new run.
    assert_eq!(kept, vec![10, -20, 30, 101, -7]);
}

#[test]
fn threshold_comparison_is_strict() {
    let mut filter = SilenceGate::new(enabled(100, 1));
    assert!(!filter.keep_sample(100));
    assert!(!filter.keep_sample(-100));
    assert!(filter.keep_sample(-101));
    assert!(filter.keep_sample(101));
}

#[test]
fn zero_run_length_drops_every_quiet_sample() {
    let mut filter = SilenceGate::new(enabled(10, 0));
    assert_eq!(filter.filter_block(&[1, 2, 50, 3]), vec![50]);
}

#[test]
fn filter_state_carries_across_blocks() {
    let mut split = SilenceGate::new(enabled(10, 3));
    let mut kept = split.filter_block(&[1, 2]);
    kept.extend(split.filter_block(&[3, 4, 20, 5]));
    let mut whole = SilenceGate::new(enabled(10, 3));
    assert_eq!(kept, whole.filter_block(&[1, 2, 3, 4, 20, 5]));
    assert_eq!(kept, vec![1, 2, 20, 5]);
}

#[test]
fn loud_sample_keeps_count_of_open_filter() {
    let mut filter = SilenceGate::new(enabled(10, 3));
    // the count is reset only when the filter was closed
    assert_eq!(filter.filter_block(&[1, 50, 2, 3]), vec![1, 50, 2]);
}

#[test]
fn stereo_downmix_is_mean_of_each_frame() {
    let mono = stereo_to_mono(&[100, 300, -3, 0, 32767, 32767, -32768, -32768, 7]);
    assert_eq!(mono, vec![200, -2, 32767, -32768]);
}

#[test]
fn multichannel_downmix_is_mean_of_each_frame() {
    let mono = mix_to_mono(&[1, 2, 3, 4, -1, -1, -1, 0, 9, 9], 4);
    assert_eq!(mono, vec![2, -1]);
}

#[test]
fn channel_step_follows_native_and_desired_counts() {
    assert_eq!(reduce_channels(vec![1, 3, 5, 7], 2, 1), vec![2, 6]);
    assert_eq!(reduce_channels(vec![1, 3, 5, 7], 2, 2), vec![1, 3, 5, 7]);
    assert_eq!(reduce_channels(vec![1, 3, 5, 7], 1, 2), vec![1, 3, 5, 7]);
    assert_eq!(reduce_channels(vec![3, 6, 9, 1, 1], 3, 1), vec![6]);
    assert_eq!(reduce_channels(vec![3, 6, 9, 1, 1], 3, 2), vec![6]);
    assert_eq!(reduce_channels(vec![3, 6, 9, 1, 1], 3, 3), vec![3, 6, 9, 1, 1]);
}

#[test]
fn same_rate_drain_is_bit_identical() {
    let mut manager = engine();
    manager.configure_silence_removal(true, Some(10), Some(2));
    capture(&mut manager, format(48000, 1), &[vec![100, 1, 2, 3, -100]]);
    assert_eq!(drained_samples(&mut manager, 48000, 1), Some(vec![100, 1, -100]));
    assert_eq!(drained_samples(&mut manager, 48000, 1), None);
}

#[test]
fn stereo_drain_downmixes() {
    let mut manager = engine();
    capture(&mut manager, format(16000, 2), &[vec![10, 20, -10, -20, 5]]);
    assert_eq!(drained_samples(&mut manager, 16000, 1), Some(vec![15, -15]));
}

#[test]
fn other_rate_drain_asks_for_conversion() {
    let mut manager = engine();
    capture(&mut manager, format(44100, 2), &[vec![10, 20, 30, 40]]);
    match manager.get_captured_audio(16000, 1) {
        Some(Captured::Resample(req)) => {
            assert_eq!(req.samples, vec![15, 35]);
            assert_eq!(req.from_rate, 44100);
            assert_eq!(req.to_rate, 16000);
            assert_eq!(req.channels, 1);
        }
        other => panic!("unexpected drain result {:?}", other),
    }
    assert!(manager.get_captured_audio(16000, 1).is_none());
}

#[test]
fn drain_of_half_frame_is_no_audio() {
    let mut manager = engine();
    capture(&mut manager, format(44100, 2), &[vec![10]]);
    assert!(manager.get_captured_audio(16000, 1).is_none());
}

#[test]
fn empty_drain_is_no_audio_for_any_settings() {
    for (rate, channels) in [(16000u32, 1u16), (44100, 2), (48000, 6)] {
        for (want_rate, want_channels) in [(16000u32, 1u16), (44100, 2)] {
            let mut manager = AudioManager::new("mic".to_string(), format(rate, channels));
            assert!(manager.get_captured_audio(want_rate, want_channels).is_none());
            manager.configure_silence_removal(true, Some(5), Some(1));
            capture(&mut manager, format(rate, channels), &[]);
            assert!(manager.get_captured_audio(want_rate, want_channels).is_none());
        }
    }
}

#[test]
fn start_clears_residual_buffer() {
    let mut manager = engine();
    capture(&mut manager, format(16000, 1), &[vec![1, 2, 3]]);
    capture(&mut manager, format(16000, 1), &[vec![4]]);
    assert_eq!(drained_samples(&mut manager, 16000, 1), Some(vec![4]));
}

#[test]
fn nothing_is_appended_outside_a_session() {
    let mut manager = engine();
    manager.append_captured(&[1, 2]);
    assert!(!manager.is_capturing());
    assert!(manager.get_captured_audio(16000, 1).is_none());
    capture(&mut manager, format(16000, 1), &[vec![3]]);
    manager.append_captured(&[9]);
    manager.stop_capture();
    assert_eq!(drained_samples(&mut manager, 16000, 1), Some(vec![3]));
}

#[test]
fn stop_keeps_buffer_and_is_idempotent() {
    let mut manager = engine();
    let mut filter = manager.new_session_gate();
    manager.start_capture(format(16000, 1));
    assert!(manager.is_capturing());
    let kept = filter.filter_block(&[7, 8]);
    manager.append_captured(&kept);
    manager.stop_capture();
    manager.stop_capture();
    assert!(!manager.is_capturing());
    assert_eq!(drained_samples(&mut manager, 16000, 1), Some(vec![7, 8]));
}

#[test]
fn silence_settings_apply_from_next_session() {
    let mut manager = engine();
    assert!(!manager.is_silence_removal_enabled());
    let mut filter = manager.new_session_gate();
    manager.start_capture(format(16000, 1));
    manager.configure_silence_removal(true, Some(10), Some(1));
    let kept = filter.filter_block(&[1, 2, 3]);
    manager.append_captured(&kept);
    manager.stop_capture();
    assert_eq!(drained_samples(&mut manager, 16000, 1), Some(vec![1, 2, 3]));
    capture(&mut manager, format(16000, 1), &[vec![1, 2, 30]]);
    assert_eq!(drained_samples(&mut manager, 16000, 1), Some(vec![30]));
}

#[test]
fn configure_keeps_values_not_given() {
    let mut manager = engine();
    manager.configure_silence_removal(true, Some(42), None);
    let config = manager.new_session_gate().config();
    assert_eq!(config, SilenceConfig { enabled: true, threshold: 42, min_silence_duration: 1000 });
    manager.set_remove_silence(false);
    assert!(!manager.is_silence_removal_enabled());
    let config = manager.new_session_gate().config();
    assert_eq!(config, SilenceConfig { enabled: false, threshold: 42, min_silence_duration: 1000 });
}

#[test]
fn default_silence_config() {
    let config = SilenceConfig::default();
    assert_eq!(config, SilenceConfig { enabled: false, threshold: 328, min_silence_duration: 1000 });
}

#[test]
fn select_existing_device() {
    let mut manager = engine();
    let devices = vec!["USB Mic".to_string(), "Headset".to_string()];
    assert_eq!(manager.set_input_device("Headset", &devices), Ok(1));
    assert_eq!(manager.get_current_device_name(), "Headset");
}

#[test]
fn select_unknown_device_fails() {
    let mut manager = engine();
    let devices = vec!["USB Mic".to_string(), "Headset".to_string()];
    assert_eq!(
        manager.set_input_device("Head", &devices),
        Err(AudioError::DeviceNotFound("Head".to_string()))
    );
    assert_eq!(manager.get_current_device_name(), "Built-in Microphone");
    assert_eq!(
        manager.set_input_device("USB Mic", &[]),
        Err(AudioError::DeviceNotFound("USB Mic".to_string()))
    );
}

#[test]
fn audio_error_messages() {
    assert_eq!(AudioError::DeviceNotFound("x".to_string()).message(), "Device not found: x");
    assert_eq!(
        AudioError::DeviceEnumeration("no host".to_string()).message(),
        "Failed to list input devices: no host"
    );
    assert_eq!(
        AudioError::DeviceOpen("busy".to_string()).message(),
        "Failed to open input stream: busy"
    );
}

#[test]
fn finish_resample_treats_empty_as_no_audio() {
    assert_eq!(finish_resample(vec![]), None);
    assert_eq!(finish_resample(vec![1, -1]), Some(vec![1, -1]));
}
