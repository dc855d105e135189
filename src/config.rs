//! Application settings and errors, as plain values. Reading and writing the
//! settings file happens outside the library.

use vstd::prelude::*;
use crate::engine::{AudioError, AudioManager, names_contain};
use crate::silence::SilenceConfig;

verus! {

/// Directory under the home directory that holds settings and recordings.
pub const BASE_PATH: &'static str = ".whispr";

/// A speech-recognition model that can be downloaded.
#[derive(Clone, Debug, PartialEq, Eq)]
pub struct Model {
    pub display_name: String,
    pub url: String,
    pub filename: String,
}

/// Capture settings.
#[derive(Clone, Debug, PartialEq, Eq)]
pub struct AudioSettings {
    pub device_name: Option<String>,
    pub remove_silence: bool,
    /// Silence threshold in PCM units (full scale 32768).
    pub silence_threshold: u16,
    pub min_silence_duration: usize,
    pub recordings_dir: Option<String>,
}

/// Settings for troubleshooting.
#[derive(Clone, Copy, Debug, PartialEq, Eq, Structural)]
pub struct DeveloperSettings {
    pub save_recordings: bool,
    pub whisper_logging: bool,
    pub logging: bool,
}

/// Settings of the transcription engine.
#[derive(Clone, Debug, PartialEq, Eq)]
pub struct WhisperSettings {
    pub model_name: String,
    pub language: Option<String>,
    pub translate: bool,
}

/// All settings of the application.
#[derive(Clone, Debug, PartialEq, Eq)]
pub struct WhisprConfig {
    pub audio: AudioSettings,
    pub developer: DeveloperSettings,
    pub whisper: WhisperSettings,
    pub start_at_login: bool,
    pub keyboard_shortcut: String,
    pub model: Model,
}

/// Default silence threshold of the settings: nine tenths of full scale.
pub const DEFAULT_SETTINGS_THRESHOLD: u16 = 29491;

/// Default quiet-run length of the settings.
pub const DEFAULT_SETTINGS_MIN_SILENCE: usize = 250;

impl Default for AudioSettings {
    fn default() -> (r: Self)
        ensures
            r.device_name is None,
            r.remove_silence,
            r.silence_threshold == DEFAULT_SETTINGS_THRESHOLD,
            r.min_silence_duration == DEFAULT_SETTINGS_MIN_SILENCE,
            r.recordings_dir matches Some(d) && d@ == BASE_PATH@,
    {
        AudioSettings {
            device_name: None,
            remove_silence: true,
            silence_threshold: DEFAULT_SETTINGS_THRESHOLD,
            min_silence_duration: DEFAULT_SETTINGS_MIN_SILENCE,
            recordings_dir: Some(String::from_str(BASE_PATH)),
        }
    }
}

impl Default for DeveloperSettings {
    fn default() -> (r: Self)
        ensures
            !r.save_recordings,
            !r.whisper_logging,
            r.logging,
    {
        DeveloperSettings { save_recordings: false, whisper_logging: false, logging: true }
    }
}

impl Default for WhisperSettings {
    fn default() -> (r: Self)
        ensures
            r.model_name@ == "base.en"@,
            r.language is None,
            !r.translate,
    {
        WhisperSettings {
            model_name: String::from_str("base.en"),
            language: None,
            translate: false,
        }
    }
}

impl Default for WhisprConfig {
    fn default() -> (r: Self)
        ensures
            r.audio.device_name is None,
            r.audio.remove_silence,
            r.audio.silence_threshold == DEFAULT_SETTINGS_THRESHOLD,
            r.audio.min_silence_duration == DEFAULT_SETTINGS_MIN_SILENCE,
            r.developer == (DeveloperSettings {
                save_recordings: false,
                whisper_logging: false,
                logging: true,
            }),
            r.whisper.model_name@ == "base.en"@,
            r.whisper.language is None,
            !r.whisper.translate,
            !r.start_at_login,
            r.keyboard_shortcut@ == "right_command_key"@,
            r.model.display_name@ == "Whisper Large v3 Turbo"@,
            r.model.filename@ == "ggml-large-v3-turbo.bin"@,
    {
        WhisprConfig {
            audio: AudioSettings::default(),
            developer: DeveloperSettings::default(),
            whisper: WhisperSettings::default(),
            start_at_login: false,
            keyboard_shortcut: String::from_str("right_command_key"),
            model: Model {
                display_name: String::from_str("Whisper Large v3 Turbo"),
                url: String::from_str(
                    "https://huggingface.co/ggerganov/whisper.cpp/resolve/main/ggml-large-v3-turbo.bin",
                ),
                filename: String::from_str("ggml-large-v3-turbo.bin"),
            },
        }
    }
}

/// Errors of the application.
#[derive(Debug, PartialEq, Eq)]
pub enum WhisprError {
    AudioError(String),
    ConfigError(String),
    HotkeyError(String),
    WhisperError(String),
    SystemError(String),
}

/// Text of an error, as shown to the user.
pub open spec fn whispr_error_text(e: WhisprError) -> Seq<char> {
    match e {
        WhisprError::AudioError(m) => "Audio initialization failed: "@ + m@,
        WhisprError::ConfigError(m) => "Configuration error: "@ + m@,
        WhisprError::HotkeyError(m) => "Hotkey error: "@ + m@,
        WhisprError::WhisperError(m) => "Whisper model error: "@ + m@,
        WhisprError::SystemError(m) => "System error: "@ + m@,
    }
}

impl WhisprError {
    /// Text of the error.
    pub fn message(&self) -> (r: String)
        ensures
            r@ == whispr_error_text(*self),
    {
        match self {
            WhisprError::AudioError(m) => String::from_str("Audio initialization failed: ").concat(
                m.as_str(),
            ),
            WhisprError::ConfigError(m) => String::from_str("Configuration error: ").concat(
                m.as_str(),
            ),
            WhisprError::HotkeyError(m) => String::from_str("Hotkey error: ").concat(m.as_str()),
            WhisprError::WhisperError(m) => String::from_str("Whisper model error: ").concat(
                m.as_str(),
            ),
            WhisprError::SystemError(m) => String::from_str("System error: ").concat(m.as_str()),
        }
    }
}

/// Text of a capture-engine error.
pub open spec fn audio_error_text(e: AudioError) -> Seq<char> {
    match e {
        AudioError::DeviceEnumeration(m) => "Failed to list input devices: "@ + m@,
        AudioError::DeviceNotFound(m) => "Device not found: "@ + m@,
        AudioError::DeviceOpen(m) => "Failed to open input stream: "@ + m@,
    }
}

impl AudioError {
    /// Text of the error.
    pub fn message(&self) -> (r: String)
        ensures
            r@ == audio_error_text(*self),
    {
        match self {
            AudioError::DeviceEnumeration(m) => String::from_str(
                "Failed to list input devices: ",
            ).concat(m.as_str()),
            AudioError::DeviceNotFound(m) => String::from_str("Device not found: ").concat(
                m.as_str(),
            ),
            AudioError::DeviceOpen(m) => String::from_str("Failed to open input stream: ").concat(
                m.as_str(),
            ),
        }
    }
}

/// Silence settings of the capture engine taken from the capture settings.
pub open spec fn settings_silence(a: AudioSettings) -> SilenceConfig {
    SilenceConfig {
        enabled: a.remove_silence,
        threshold: a.silence_threshold,
        min_silence_duration: a.min_silence_duration,
    }
}

/// Applies the capture settings to the engine: selects the configured device
/// among the enumerated ones, if one is configured, and sets the silence
/// settings. An unknown device is an `AudioError`, and then nothing changes.
pub fn configure_audio(audio: &mut AudioManager, settings: &AudioSettings, available: &[String]) -> (r:
    Result<(), WhisprError>)
    ensures
        r is Err <==> (settings.device_name matches Some(n) && !names_contain(available@, n@)),
        r matches Err(e) ==> (e matches WhisprError::AudioError(m) && settings.device_name matches Some(
            n,
        ) && m@ == audio_error_text(AudioError::DeviceNotFound(n))),
        r is Err ==> final(audio)@ == old(audio)@,
        r is Ok ==> final(audio)@.silence_config == settings_silence(*settings),
        r is Ok ==> final(audio)@.device_name == match settings.device_name {
            Some(n) => n@,
            None => old(audio)@.device_name,
        },
        final(audio)@.capturing == old(audio)@.capturing,
        final(audio)@.format == old(audio)@.format,
        final(audio)@.buffer == old(audio)@.buffer,
{
    if let Some(name) = &settings.device_name {
        if let Err(e) = audio.set_input_device(name.as_str(), available) {
            return Err(WhisprError::AudioError(e.message()));
        }
    }
    audio.configure_silence_removal(
        settings.remove_silence,
        Some(settings.silence_threshold),
        Some(settings.min_silence_duration),
    );
    Ok(())
}

} // verus!
