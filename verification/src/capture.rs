//! The capture session: one microphone-open-to-close cycle producing
//! one sample buffer.
//!
//! The hardware stream itself is confined to a dedicated thread outside
//! this crate; that thread owns the stream for its whole lifetime and
//! talks to the rest of the system only through this state: it appends
//! each delivered chunk with [`AudioCapture::push_chunk`], while the
//! controller reads the flags and drains the buffer with
//! [`AudioCapture::stop`].  Exactly one capture session may be active
//! system-wide at a time; starting a second one on an active instance
//! is a reported error, never a queued operation.

use vstd::prelude::*;

use crate::silence::DEFAULT_SILENCE_DURATION_MS;
use crate::silence::DEFAULT_SILENCE_THRESHOLD;
use crate::silence::SilenceDetector;
use crate::silence::calculate_rms;
use crate::silence::chunk_rms;
use crate::silence::spec_new_detector;
use crate::silence::spec_process;

verus! {

/// The fixed capture sample rate, in Hz: transcription expects 16 kHz.
pub const CAPTURE_SAMPLE_RATE: u32 = 16_000;

/// Configuration for silence detection auto-stop.
///
/// `threshold` is in micro-units of RMS amplitude and `duration_ms` in
/// milliseconds; out-of-range values are clamped by the detector, never
/// rejected.
pub struct SilenceConfig {
    /// Enable silence detection.
    pub enabled: bool,
    /// RMS threshold in micro-units below which audio is considered silent.
    pub threshold: u32,
    /// Milliseconds of silence before auto-stop.
    pub duration_ms: u32,
}

impl Clone for SilenceConfig {
    fn clone(&self) -> (r: Self)
        ensures
            r == *self,
    {
        SilenceConfig { enabled: self.enabled, threshold: self.threshold, duration_ms: self.duration_ms }
    }
}

impl Default for SilenceConfig {
    /// Silence detection is on by default, with the default threshold
    /// and duration.
    fn default() -> (r: Self)
        ensures
            r.enabled,
            r.threshold == DEFAULT_SILENCE_THRESHOLD,
            r.duration_ms == DEFAULT_SILENCE_DURATION_MS,
    {
        SilenceConfig {
            enabled: true,
            threshold: DEFAULT_SILENCE_THRESHOLD,
            duration_ms: DEFAULT_SILENCE_DURATION_MS,
        }
    }
}

/// Errors of the capture engine.
#[derive(Clone, Copy, PartialEq, Eq, Structural, Debug)]
pub enum CaptureError {
    /// No microphone is available.
    NoInputDevice,
    /// A capture on this instance is already active.
    AlreadyRecording,
}

impl CaptureError {
    /// A human-readable message for the error.
    pub fn message(&self) -> (r: &'static str)
        ensures
            *self is NoInputDevice ==> r@ == "No input device available"@,
            *self is AlreadyRecording ==> r@ == "Already recording"@,
    {
        match self {
            CaptureError::NoInputDevice => "No input device available",
            CaptureError::AlreadyRecording => "Already recording",
        }
    }
}

/// State of one capture session.
///
/// `buffer` is the shared sample buffer in micro-units, append-only
/// while recording; `is_recording` and `silence_triggered` are the
/// flags the capture thread and the controller exchange; `detector` is
/// the inline silence detector, present only when the configuration
/// enables it and a capture has started.
pub struct AudioCapture {
    /// Ordered sample buffer, appended by the capture thread.
    pub buffer: Vec<i32>,
    /// Whether a capture on this instance is active.
    pub is_recording: bool,
    /// Whether silence detection requested an auto-stop.
    pub silence_triggered: bool,
    /// The fixed session sample rate.
    pub sample_rate: u32,
    /// The silence-detection configuration given at construction.
    pub silence_config: SilenceConfig,
    /// The inline detector, if the configuration enables it.
    pub detector: Option<SilenceDetector>,
    /// RMS of the most recently delivered chunk, in micro-units.
    pub current_level: u64,
}

impl AudioCapture {
    /// Every capture is built with the fixed 16 kHz session rate.
    pub open spec fn well_formed(&self) -> bool {
        self.sample_rate == CAPTURE_SAMPLE_RATE
    }

    /// Create a new audio capture with default settings.
    ///
    /// The caller reports whether a default input device was found;
    /// probing the hardware is I/O outside this crate.  Without a
    /// device the capture fails with [`CaptureError::NoInputDevice`].
    pub fn new(input_device_available: bool) -> (r: Result<AudioCapture, CaptureError>)
        ensures
            input_device_available ==> r is Ok && {
                let c = r->Ok_0;
                c.buffer@.len() == 0 && !c.is_recording && !c.silence_triggered
                    && c.sample_rate == CAPTURE_SAMPLE_RATE && c.silence_config.enabled
                    && c.silence_config.threshold == DEFAULT_SILENCE_THRESHOLD
                    && c.silence_config.duration_ms == DEFAULT_SILENCE_DURATION_MS
                    && c.detector is None && c.current_level == 0 && c.well_formed()
            },
            !input_device_available ==> r == Result::<AudioCapture, CaptureError>::Err(
                CaptureError::NoInputDevice,
            ),
    {
        Self::with_silence_config(Default::default(), input_device_available)
    }

    /// Create a new audio capture with custom silence detection
    /// settings.  See [`AudioCapture::new`] for the device flag.
    pub fn with_silence_config(silence_config: SilenceConfig, input_device_available: bool) -> (r:
        Result<AudioCapture, CaptureError>)
        ensures
            input_device_available ==> r is Ok && {
                let c = r->Ok_0;
                c.buffer@.len() == 0 && !c.is_recording && !c.silence_triggered
                    && c.sample_rate == CAPTURE_SAMPLE_RATE && c.silence_config == silence_config
                    && c.detector is None && c.current_level == 0 && c.well_formed()
            },
            !input_device_available ==> r == Result::<AudioCapture, CaptureError>::Err(
                CaptureError::NoInputDevice,
            ),
    {
        if !input_device_available {
            return Err(CaptureError::NoInputDevice);
        }
        Ok(AudioCapture {
            buffer: Vec::new(),
            is_recording: false,
            silence_triggered: false,
            sample_rate: CAPTURE_SAMPLE_RATE,
            silence_config,
            detector: None,
            current_level: 0,
        })
    }

    /// Start a capture on this instance.
    ///
    /// Fails with [`CaptureError::AlreadyRecording`], changing nothing
    /// (the active session's buffer is not corrupted), when a capture
    /// is already active.  On success the buffer and the silence
    /// trigger are cleared, recording is marked active, and a fresh
    /// inline detector is created when the configuration enables one.
    /// The dedicated thread that owns the hardware stream is spawned by
    /// the caller and feeds [`AudioCapture::push_chunk`].
    pub fn start(&mut self) -> (r: Result<(), CaptureError>)
        requires
            old(self).well_formed(),
        ensures
            final(self).well_formed(),
            old(self).is_recording ==> r == Result::<(), CaptureError>::Err(
                CaptureError::AlreadyRecording,
            ) && *final(self) == *old(self),
            !old(self).is_recording ==> r is Ok && {
                let c = *final(self);
                c.buffer@.len() == 0 && c.is_recording && !c.silence_triggered
                    && c.sample_rate == old(self).sample_rate
                    && c.silence_config == old(self).silence_config && c.current_level == 0 && (if old(self).silence_config.enabled {
                    c.detector == Some(
                        spec_new_detector(
                            old(self).silence_config.threshold,
                            old(self).silence_config.duration_ms,
                            old(self).sample_rate,
                        ),
                    )
                } else {
                    c.detector is None
                })
            },
    {
        if self.is_recording {
            return Err(CaptureError::AlreadyRecording);
        }
        self.buffer = Vec::new();
        self.silence_triggered = false;
        self.is_recording = true;
        self.current_level = 0;
        if self.silence_config.enabled {
            self.detector = Some(
                SilenceDetector::new(
                    self.silence_config.threshold,
                    self.silence_config.duration_ms,
                    self.sample_rate,
                ),
            );
        } else {
            self.detector = None;
        }
        Ok(())
    }

    /// Deliver one chunk from the capture thread.
    ///
    /// The samples are appended to the shared buffer, the level is
    /// updated to the chunk's RMS, and the chunk is fed to the inline
    /// detector if one is present.  If the detector reports that the
    /// silence duration was exceeded, the silence trigger is set and
    /// recording stops.
    pub fn push_chunk(&mut self, chunk: &[i32])
        requires
            old(self).is_recording,
        ensures
            final(self).buffer@ == old(self).buffer@ + chunk@,
            final(self).current_level as int == chunk_rms(chunk@),
            final(self).sample_rate == old(self).sample_rate,
            final(self).silence_config == old(self).silence_config,
            old(self).detector is None ==> final(self).detector is None
                && final(self).is_recording
                && final(self).silence_triggered == old(self).silence_triggered,
            old(self).detector is Some ==> {
                let stepped = spec_process(old(self).detector->0, chunk@);
                final(self).detector == Some(stepped) && (if stepped.triggered {
                    final(self).silence_triggered && !final(self).is_recording
                } else {
                    final(self).is_recording
                        && final(self).silence_triggered == old(self).silence_triggered
                })
            },
    {
        self.buffer.append(&mut vstd::slice::slice_to_vec(chunk));
        self.current_level = calculate_rms(chunk);
        let mut triggered = false;
        match &mut self.detector {
            Some(detector) => {
                if detector.process(chunk) {
                    triggered = true;
                }
            },
            None => {},
        }
        if triggered {
            self.silence_triggered = true;
            self.is_recording = false;
        }
    }

    /// Check if silence detection triggered an auto-stop.
    pub fn is_silence_triggered(&self) -> (r: bool)
        ensures
            r == self.silence_triggered,
    {
        self.silence_triggered
    }

    /// RMS of the most recently delivered chunk, in micro-units; zero
    /// before any chunk arrived.
    pub fn current_level(&self) -> (r: u64)
        ensures
            r == self.current_level,
    {
        self.current_level
    }

    /// Stop the capture and drain the buffer.
    ///
    /// Clears the recording flag, which the capture thread observes to
    /// tear down the stream, and returns the whole sample buffer — a
    /// session that captured zero chunks yields an empty sequence, not
    /// an error.
    pub fn stop(self) -> (r: Result<Vec<i32>, CaptureError>)
        ensures
            r is Ok,
            r->Ok_0@ == self.buffer@,
    {
        Ok(self.buffer)
    }

    /// The fixed sample rate of the session, in Hz.
    pub fn sample_rate(&self) -> (r: u32)
        ensures
            r == self.sample_rate,
    {
        self.sample_rate
    }
}

} // verus!
