//! Core logic of a push-to-talk voice-dictation pipeline.
//!
//! The crate models audio amplitudes as integers in micro-units (one
//! million micro-units equal full scale) and durations in milliseconds,
//! so that the silence-detection algorithm, the capture-session state
//! machine and the dictation session controller can be stated and proved
//! exactly.  The surrounding process (microphone streams, playback,
//! file and network I/O, the windowing shell) lives outside this crate
//! and talks to it through plain values.

pub mod accessibility;
pub mod capture;
pub mod download;
pub mod engines;
pub mod hardware;
pub mod hotkeys;
pub mod playback;
pub mod recorder;
pub mod registry;
pub mod session;
pub mod settings;
pub mod silence;
pub mod strutil;
pub mod tts;
