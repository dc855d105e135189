//! The capture engine: the retained-sample buffer of a capture session, its
//! silence settings and the drain that hands captured audio on.

use vstd::prelude::*;
use crate::silence::{SilenceConfig, SilenceGate, default_silence_config, open_phase};
use crate::transform::{
    DeviceFormat,
    channel_step,
    channels_after,
    reduce_channels,
    reduced_channels,
};

verus! {

/// Errors of the capture engine.
#[derive(Debug, PartialEq, Eq)]
pub enum AudioError {
    /// The audio subsystem could not list its input devices.
    DeviceEnumeration(String),
    /// No input device has the requested name.
    DeviceNotFound(String),
    /// The native input stream could not be opened.
    DeviceOpen(String),
}

/// Mathematical state of the capture engine.
pub struct CaptureState {
    /// Name of the selected input device.
    pub device_name: Seq<char>,
    /// Silence settings that the next session starts with.
    pub silence_config: SilenceConfig,
    /// Whether a session is capturing.
    pub capturing: bool,
    /// Native format of the stream of the current or last session.
    pub format: DeviceFormat,
    /// Retained samples, in order.
    pub buffer: Seq<i16>,
}

/// Audio that a drain hands on.
#[derive(Debug)]
pub enum Captured {
    /// Samples already in the desired format.
    Samples(Vec<i16>),
    /// Samples in the desired channel layout whose rate still has to be
    /// converted.
    Resample(ResampleRequest),
}

/// Interleaved samples to convert from one sample rate to another.
#[derive(Debug)]
pub struct ResampleRequest {
    pub samples: Vec<i16>,
    pub from_rate: u32,
    pub to_rate: u32,
    pub channels: u16,
}

/// The capture engine: selected device, silence settings, capture flag and
/// the buffer of retained samples.
pub struct AudioManager {
    device_name: String,
    silence_config: SilenceConfig,
    capturing: bool,
    format: DeviceFormat,
    captured_audio: Vec<i16>,
}

impl View for AudioManager {
    type V = CaptureState;

    closed spec fn view(&self) -> CaptureState {
        CaptureState {
            device_name: self.device_name@,
            silence_config: self.silence_config,
            capturing: self.capturing,
            format: self.format,
            buffer: self.captured_audio@,
        }
    }
}

/// Whether some name in `names` is `name`.
pub open spec fn names_contain(names: Seq<String>, name: Seq<char>) -> bool {
    exists|i: int| 0 <= i < names.len() && #[trigger] names[i]@ == name
}

/// The result of a drain of `buffer` captured in `format`, as a mathematical
/// value: `None` for no audio, else the samples after the channel step.
pub open spec fn drained_samples(buffer: Seq<i16>, format: DeviceFormat, desired_channels: u16) -> Option<Seq<i16>> {
    if buffer.len() == 0 {
        None
    } else {
        let reduced = channel_step(buffer, format.channels, desired_channels);
        if reduced.len() == 0 {
            None
        } else {
            Some(reduced)
        }
    }
}

impl AudioManager {
    /// An idle engine on the given device, with default silence settings and
    /// an empty buffer.
    pub fn new(device_name: String, format: DeviceFormat) -> (r: Self)
        ensures
            r@.device_name == device_name@,
            r@.silence_config == default_silence_config(),
            !r@.capturing,
            r@.format == format,
            r@.buffer.len() == 0,
    {
        AudioManager {
            device_name,
            silence_config: SilenceConfig::default(),
            capturing: false,
            format,
            captured_audio: Vec::new(),
        }
    }

    /// Takes the whole buffer (it is left empty) and applies the channel step
    /// from the session's native format to `desired_channels`. Returns `None`
    /// when there was no audio or nothing is left after the channel step.
    /// When the native rate is the desired rate the samples are returned as
    /// they are; otherwise they come back as a request to convert the rate.
    pub fn get_captured_audio(&mut self, desired_sample_rate: u32, desired_channels: u16) -> (r:
        Option<Captured>)
        ensures
            final(self)@.buffer.len() == 0,
            final(self)@.device_name == old(self)@.device_name,
            final(self)@.silence_config == old(self)@.silence_config,
            final(self)@.capturing == old(self)@.capturing,
            final(self)@.format == old(self)@.format,
            old(self)@.buffer.len() == 0 ==> r is None,
            ({
                let out = drained_samples(
                    old(self)@.buffer,
                    old(self)@.format,
                    desired_channels,
                );
                match r {
                    None => out is None,
                    Some(Captured::Samples(v)) => out == Some(v@) && old(self)@.format.sample_rate
                        == desired_sample_rate,
                    Some(Captured::Resample(req)) => out == Some(req.samples@)
                        && old(self)@.format.sample_rate != desired_sample_rate && req.from_rate
                        == old(self)@.format.sample_rate && req.to_rate == desired_sample_rate
                        && req.channels == channels_after(
                        old(self)@.format.channels,
                        desired_channels,
                    ),
                }
            }),
            old(self)@.buffer.len() > 0 && old(self)@.format.sample_rate == desired_sample_rate
                && old(self)@.format.channels == desired_channels ==> (r matches Some(
                Captured::Samples(v),
            ) && v@ == old(self)@.buffer),
    {
        let mut audio_data: Vec<i16> = Vec::new();
        std::mem::swap(&mut audio_data, &mut self.captured_audio);
        if audio_data.len() == 0 {
            return None;
        }
        let native = self.format;
        let processed = reduce_channels(audio_data, native.channels, desired_channels);
        if processed.len() == 0 {
            None
        } else if native.sample_rate == desired_sample_rate {
            Some(Captured::Samples(processed))
        } else {
            let channels = reduced_channels(native.channels, desired_channels);
            Some(
                Captured::Resample(
                    ResampleRequest {
                        samples: processed,
                        from_rate: native.sample_rate,
                        to_rate: desired_sample_rate,
                        channels,
                    },
                ),
            )
        }
    }

    /// Starts a session on a stream of the given native format: the buffer
    /// is cleared, whatever a previous session left in it, and the engine
    /// captures.
    pub fn start_capture(&mut self, format: DeviceFormat)
        ensures
            final(self)@.buffer.len() == 0,
            final(self)@.capturing,
            final(self)@.format == format,
            final(self)@.device_name == old(self)@.device_name,
            final(self)@.silence_config == old(self)@.silence_config,
    {
        self.captured_audio.clear();
        self.format = format;
        self.capturing = true;
    }

    /// A fresh filter for the next session: the current silence settings, an
    /// open filter and an empty run.
    pub fn new_session_gate(&self) -> (g: SilenceGate)
        ensures
            g.wf(),
            g.config_spec() == self@.silence_config,
            g.phase() == open_phase(),
    {
        SilenceGate::new(self.silence_config)
    }

    /// Ends the session. The buffer is kept for a later drain; stopping an
    /// idle engine changes nothing.
    pub fn stop_capture(&mut self)
        ensures
            !final(self)@.capturing,
            final(self)@.buffer == old(self)@.buffer,
            final(self)@.device_name == old(self)@.device_name,
            final(self)@.silence_config == old(self)@.silence_config,
            final(self)@.format == old(self)@.format,
    {
        self.capturing = false;
    }

    /// Whether a session is capturing.
    pub fn is_capturing(&self) -> (r: bool)
        ensures
            r == self@.capturing,
    {
        self.capturing
    }

    /// Appends samples that a session's filter kept. Outside a session nothing
    /// is written.
    pub fn append_captured(&mut self, kept: &[i16])
        ensures
            old(self)@.capturing ==> final(self)@.buffer == old(self)@.buffer + kept@,
            !old(self)@.capturing ==> final(self)@.buffer == old(self)@.buffer,
            final(self)@.capturing == old(self)@.capturing,
            final(self)@.device_name == old(self)@.device_name,
            final(self)@.silence_config == old(self)@.silence_config,
            final(self)@.format == old(self)@.format,
    {
        if !self.capturing {
            return;
        }
        let mut i: usize = 0;
        while i < kept.len()
            invariant
                i <= kept@.len(),
                self.captured_audio@ == old(self).captured_audio@ + kept@.subrange(0, i as int),
                self.capturing == old(self).capturing,
                self.device_name == old(self).device_name,
                self.silence_config == old(self).silence_config,
                self.format == old(self).format,
            decreases kept@.len() - i,
        {
            self.captured_audio.push(kept[i]);
            i = i + 1;
            proof {
                assert(old(self).captured_audio@ + kept@.subrange(0, i as int) =~= (old(
                    self,
                ).captured_audio@ + kept@.subrange(0, i - 1)).push(kept@[i - 1]));
            }
        }
        proof {
            assert(kept@.subrange(0, kept@.len() as int) =~= kept@);
        }
    }

    /// Selects the input device called `device_name` among the names of the
    /// enumerated devices, returning the position of the first that matches
    /// exactly. Fails with `DeviceNotFound`, leaving the selection as it was,
    /// when none of them matches.
    pub fn set_input_device(&mut self, device_name: &str, available: &[String]) -> (r: Result<
        usize,
        AudioError,
    >)
        ensures
            r is Ok <==> names_contain(available@, device_name@),
            r matches Ok(i) ==> i < available@.len() && available@[i as int]@ == device_name@
                && forall|k: int| 0 <= k < i ==> #[trigger] available@[k]@ != device_name@,
            r is Ok ==> final(self)@.device_name == device_name@,
            r is Err ==> final(self)@.device_name == old(self)@.device_name,
            r matches Err(e) ==> (e matches AudioError::DeviceNotFound(n) && n@ == device_name@),
            final(self)@.silence_config == old(self)@.silence_config,
            final(self)@.capturing == old(self)@.capturing,
            final(self)@.format == old(self)@.format,
            final(self)@.buffer == old(self)@.buffer,
    {
        let wanted = String::from_str(device_name);
        let mut i: usize = 0;
        while i < available.len()
            invariant
                i <= available@.len(),
                *self == *old(self),
                wanted@ == device_name@,
                forall|k: int| 0 <= k < i ==> #[trigger] available@[k]@ != device_name@,
            decreases available@.len() - i,
        {
            if available[i] == wanted {
                self.device_name = wanted;
                return Ok(i);
            }
            i = i + 1;
        }
        Err(AudioError::DeviceNotFound(wanted))
    }

    /// Name of the selected input device.
    pub fn get_current_device_name(&self) -> (r: String)
        ensures
            r@ == self@.device_name,
    {
        self.device_name.clone()
    }

    /// Sets the silence settings that the next session starts with; a
    /// running session keeps the filter it started with. A threshold or run
    /// length that is not given stays as it was.
    pub fn configure_silence_removal(
        &mut self,
        enabled: bool,
        threshold: Option<u16>,
        min_silence_duration: Option<usize>,
    )
        ensures
            final(self)@.silence_config.enabled == enabled,
            final(self)@.silence_config.threshold == match threshold {
                Some(t) => t,
                None => old(self)@.silence_config.threshold,
            },
            final(self)@.silence_config.min_silence_duration == match min_silence_duration {
                Some(d) => d,
                None => old(self)@.silence_config.min_silence_duration,
            },
            final(self)@.device_name == old(self)@.device_name,
            final(self)@.capturing == old(self)@.capturing,
            final(self)@.format == old(self)@.format,
            final(self)@.buffer == old(self)@.buffer,
    {
        self.silence_config.enabled = enabled;
        if let Some(t) = threshold {
            self.silence_config.threshold = t;
        }
        if let Some(d) = min_silence_duration {
            self.silence_config.min_silence_duration = d;
        }
    }

    /// Whether the next session removes silence.
    pub fn is_silence_removal_enabled(&self) -> (r: bool)
        ensures
            r == self@.silence_config.enabled,
    {
        self.silence_config.enabled
    }

    /// Turns silence removal on or off, keeping threshold and run length.
    pub fn set_remove_silence(&mut self, remove_silence: bool)
        ensures
            final(self)@.silence_config == (SilenceConfig {
                enabled: remove_silence,
                ..old(self)@.silence_config
            }),
            final(self)@.device_name == old(self)@.device_name,
            final(self)@.capturing == old(self)@.capturing,
            final(self)@.format == old(self)@.format,
            final(self)@.buffer == old(self)@.buffer,
    {
        self.configure_silence_removal(remove_silence, None, None);
    }
}

/// The last step of a drain whose rate had to be converted: an empty result
/// (nothing left, or a failed conversion) is no audio.
pub fn finish_resample(resampled: Vec<i16>) -> (r: Option<Vec<i16>>)
    ensures
        resampled@.len() == 0 ==> r is None,
        resampled@.len() > 0 ==> r == Some(resampled),
{
    if resampled.len() == 0 {
        None
    } else {
        Some(resampled)
    }
}

} // verus!
