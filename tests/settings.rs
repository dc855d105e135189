use whispr::config::{
    configure_audio, AudioSettings, DeveloperSettings, WhisperSettings, WhisprConfig, WhisprError,
};
use whispr::engine::AudioManager;
use whispr::hotkey::{get_key_code_and_mask, key_event_state};
use whispr::silence::SilenceConfig;
use whispr::transform::DeviceFormat;

fn manager() -> AudioManager {
    AudioManager::new("mic".to_string(), DeviceFormat { sample_rate: 16000, channels: 1 })
}

#[test]
fn default_settings() {
    let config = WhisprConfig::default();
    assert_eq!(config.audio.device_name, None);
    assert!(config.audio.remove_silence);
    assert_eq!(config.audio.silence_threshold, 29491);
    assert_eq!(config.audio.min_silence_duration, 250);
    assert_eq!(config.audio.recordings_dir, Some(".whispr".to_string()));
    assert_eq!(
        config.developer,
        DeveloperSettings { save_recordings: false, whisper_logging: false, logging: true }
    );
    assert_eq!(config.whisper.model_name, "base.en");
    assert_eq!(config.whisper.language, None);
    assert!(!config.whisper.translate);
    assert!(!config.start_at_login);
    assert_eq!(config.keyboard_shortcut, "right_command_key");
    assert_eq!(config.model.display_name, "Whisper Large v3 Turbo");
    assert_eq!(
        config.model.url,
        "https://huggingface.co/ggerganov/whisper.cpp/resolve/main/ggml-large-v3-turbo.bin"
    );
    assert_eq!(config.model.filename, "ggml-large-v3-turbo.bin");
    assert_eq!(config.whisper, WhisperSettings::default());
    assert_eq!(config.audio, AudioSettings::default());
}

#[test]
fn configure_audio_applies_device_and_silence() {
    let mut audio = manager();
    let mut settings = AudioSettings::default();
    settings.device_name = Some("Headset".to_string());
    let devices = vec!["Headset".to_string()];
    assert_eq!(configure_audio(&mut audio, &settings, &devices), Ok(()));
    assert_eq!(audio.get_current_device_name(), "Headset");
    assert_eq!(
        audio.new_session_gate().config(),
        SilenceConfig { enabled: true, threshold: 29491, min_silence_duration: 250 }
    );
}

#[test]
fn configure_audio_without_device_keeps_current() {
    let mut audio = manager();
    let mut settings = AudioSettings::default();
    settings.remove_silence = false;
    assert_eq!(configure_audio(&mut audio, &settings, &[]), Ok(()));
    assert_eq!(audio.get_current_device_name(), "mic");
    assert!(!audio.is_silence_removal_enabled());
}

#[test]
fn configure_audio_with_unknown_device_fails() {
    let mut audio = manager();
    let mut settings = AudioSettings::default();
    settings.device_name = Some("Gone".to_string());
    let result = configure_audio(&mut audio, &settings, &["mic".to_string()]);
    assert_eq!(result, Err(WhisprError::AudioError("Device not found: Gone".to_string())));
    assert_eq!(audio.get_current_device_name(), "mic");
    assert!(!audio.is_silence_removal_enabled());
}

#[test]
fn error_messages() {
    let m = |e: WhisprError| e.message();
    assert_eq!(m(WhisprError::AudioError("a".to_string())), "Audio initialization failed: a");
    assert_eq!(m(WhisprError::ConfigError("b".to_string())), "Configuration error: b");
    assert_eq!(m(WhisprError::HotkeyError("c".to_string())), "Hotkey error: c");
    assert_eq!(m(WhisprError::WhisperError("d".to_string())), "Whisper model error: d");
    assert_eq!(m(WhisprError::SystemError("e".to_string())), "System error: e");
}

#[test]
fn shortcut_key_codes() {
    assert_eq!(get_key_code_and_mask("right_option_key"), Some((61, 1 << 19)));
    assert_eq!(get_key_code_and_mask("right_command_key"), Some((54, 1 << 20)));
    assert_eq!(get_key_code_and_mask("left_shift_key"), None);
}

#[test]
fn key_events_read_as_press_or_release() {
    assert_eq!(key_event_state(54, 1 << 20 | 1 << 8, 54, 1 << 20), Some(true));
    assert_eq!(key_event_state(54, 1 << 8, 54, 1 << 20), Some(false));
    assert_eq!(key_event_state(61, 1 << 20, 54, 1 << 20), None);
}
