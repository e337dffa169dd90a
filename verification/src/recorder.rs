//! The recording commands' shared state: the single active capture
//! session, guarded by an explicit recording flag so that at most one
//! capture is active system-wide.
//!
//! The command layer outside this crate holds one `RecorderState`
//! behind its synchronisation primitive and forwards the command calls
//! here; errors travel back as the human-readable strings the UI
//! shows.

use vstd::prelude::*;

use crate::capture::AudioCapture;
use crate::settings::AppSettings;
use crate::silence::spec_new_detector;

verus! {

/// Result of stopping a recording: the drained samples in micro-units
/// and whether silence detection stopped the capture.
#[derive(Debug)]
pub struct StopRecordingResult {
    /// The captured samples, in micro-units of amplitude.
    pub audio_data: Vec<i32>,
    /// Whether silence detection triggered the stop.
    pub silence_triggered: bool,
}

/// A finished transcription: the text and how long it took.
pub struct TranscriptionResult {
    /// The transcribed text.
    pub text: String,
    /// Wall-clock duration of the transcription, in milliseconds.
    pub duration_ms: u64,
}

/// State of the recording commands: the recording flag and the active
/// capture session, if any.
pub struct RecorderState {
    /// Whether a recording is active.
    pub is_recording: bool,
    /// The active capture session.
    pub capture: Option<AudioCapture>,
}

impl RecorderState {
    /// No recording is active at first.
    pub fn new() -> (r: RecorderState)
        ensures
            !r.is_recording,
            r.capture is None,
    {
        RecorderState { is_recording: false, capture: None }
    }

    /// Start a recording with the silence-detection settings in
    /// `settings`.  The caller reports whether a default input device
    /// was found.
    ///
    /// Fails, changing nothing, when a recording is already active or
    /// when there is no input device; otherwise the capture session is
    /// created and started and the recording flag set.
    pub fn start_recording(&mut self, settings: &AppSettings, input_device_available: bool) -> (r:
        Result<(), String>)
        ensures
            old(self).is_recording ==> r is Err && r->Err_0@ == "Already recording"@ && *final(self) == *old(self),
            !old(self).is_recording && !input_device_available ==> r is Err && r->Err_0@
                == "No input device available"@ && *final(self) == *old(self),
            !old(self).is_recording && input_device_available ==> r is Ok && final(self).is_recording && {
                let c = final(self).capture->0;
                final(self).capture is Some && c.is_recording && c.buffer@.len() == 0
                    && !c.silence_triggered && c.silence_config.enabled == settings
                    .silence_detection_enabled && c.silence_config.threshold == settings
                    .silence_threshold && c.silence_config.duration_ms == settings
                    .silence_duration_ms && (settings.silence_detection_enabled ==> c.detector
                    == Some(
                    spec_new_detector(
                        settings.silence_threshold,
                        settings.silence_duration_ms,
                        c.sample_rate,
                    ),
                )) && (!settings.silence_detection_enabled ==> c.detector is None)
            },
    {
        if self.is_recording {
            return Err("Already recording".to_owned());
        }
        let capture = match AudioCapture::with_silence_config(
            settings.silence_config(),
            input_device_available,
        ) {
            Ok(c) => c,
            Err(e) => {
                return Err(e.message().to_owned());
            },
        };
        let mut capture = capture;
        match capture.start() {
            Ok(()) => {},
            Err(e) => {
                return Err(e.message().to_owned());
            },
        }
        self.capture = Some(capture);
        self.is_recording = true;
        Ok(())
    }

    /// Stop the active recording and drain its buffer.
    ///
    /// Fails, changing nothing, when no recording is active.  With an
    /// active recording the capture session is consumed; its whole
    /// buffer and its silence trigger come back, and a session that
    /// lost its capture yields an empty buffer rather than an error.
    pub fn stop_recording(&mut self) -> (r: Result<StopRecordingResult, String>)
        ensures
            !old(self).is_recording ==> r is Err && r->Err_0@ == "Not recording"@ && *final(self)
                == *old(self),
            old(self).is_recording ==> r is Ok && !final(self).is_recording && final(self).capture is None && {
                let out = r->Ok_0;
                (old(self).capture is Some ==> out.audio_data@ == old(self).capture->0.buffer@
                    && out.silence_triggered == old(self).capture->0.silence_triggered) && (old(self).capture is None ==> out.audio_data@.len() == 0 && !out.silence_triggered)
            },
    {
        if !self.is_recording {
            return Err("Not recording".to_owned());
        }
        let capture = self.capture.take();
        let (audio_data, silence_triggered) = match capture {
            Some(c) => {
                let triggered = c.is_silence_triggered();
                let data = match c.stop() {
                    Ok(d) => d,
                    Err(e) => {
                        return Err(e.message().to_owned());
                    },
                };
                (data, triggered)
            },
            None => (Vec::new(), false),
        };
        self.is_recording = false;
        Ok(StopRecordingResult { audio_data, silence_triggered })
    }

    /// Check if recording was auto-stopped by silence detection; false
    /// when no capture session exists.
    pub fn is_silence_triggered(&self) -> (r: bool)
        ensures
            self.capture is Some ==> r == self.capture->0.silence_triggered,
            self.capture is None ==> !r,
    {
        match &self.capture {
            Some(c) => c.is_silence_triggered(),
            None => false,
        }
    }

    /// Check if currently recording.
    pub fn is_recording(&self) -> (r: bool)
        ensures
            r == self.is_recording,
    {
        self.is_recording
    }
}

} // verus!
