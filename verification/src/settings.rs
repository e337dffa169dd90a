//! Application settings.
//!
//! The silence threshold is kept in micro-units of RMS amplitude
//! (displayed as 0.001–0.1 of full scale), the silence duration in
//! milliseconds (displayed as 0.5–5.0 seconds), and the speech speed
//! in hundredths (100 is normal speed).  Reading and writing the
//! settings file is I/O outside this crate; it hands a whole
//! `AppSettings` value in and out.

use vstd::prelude::*;

use crate::capture::SilenceConfig;
use crate::silence::DEFAULT_SILENCE_DURATION_MS;
use crate::silence::DEFAULT_SILENCE_THRESHOLD;

verus! {

/// Silence detection is enabled unless the settings say otherwise.
pub fn default_silence_enabled() -> (r: bool)
    ensures
        r,
{
    true
}

/// Default silence threshold, in micro-units of RMS amplitude.
pub fn default_silence_threshold() -> (r: u32)
    ensures
        r == DEFAULT_SILENCE_THRESHOLD,
{
    DEFAULT_SILENCE_THRESHOLD
}

/// Default silence duration, in milliseconds.
pub fn default_silence_duration() -> (r: u32)
    ensures
        r == DEFAULT_SILENCE_DURATION_MS,
{
    DEFAULT_SILENCE_DURATION_MS
}

/// The user-facing settings.
pub struct AppSettings {
    /// Hotkey that starts and stops dictation, e.g. `CommandOrControl+Shift+D`.
    pub stt_hotkey: String,
    /// Hotkey that reads the selection aloud.
    pub tts_hotkey: String,
    /// File name of the active speech-to-text model.
    pub stt_model: String,
    /// Identifier of the active speech voice.
    pub tts_voice: String,
    /// Speech speed in hundredths; 100 is normal speed.
    pub tts_speed_centi: u32,
    /// Paste the transcription into the target application automatically.
    pub auto_paste: bool,
    /// Start the application at login.
    pub launch_at_login: bool,
    /// Run as a menu-bar application.
    pub menu_bar_mode: bool,
    /// Enable silence-detection auto-stop.
    pub silence_detection_enabled: bool,
    /// Silence threshold in micro-units of RMS amplitude.
    pub silence_threshold: u32,
    /// Silence duration in milliseconds.
    pub silence_duration_ms: u32,
    /// Whether onboarding has been completed.
    pub onboarding_completed: bool,
}

impl Clone for AppSettings {
    fn clone(&self) -> (r: Self)
        ensures
            r.stt_hotkey@ == self.stt_hotkey@,
            r.tts_hotkey@ == self.tts_hotkey@,
            r.stt_model@ == self.stt_model@,
            r.tts_voice@ == self.tts_voice@,
            r.tts_speed_centi == self.tts_speed_centi,
            r.auto_paste == self.auto_paste,
            r.launch_at_login == self.launch_at_login,
            r.menu_bar_mode == self.menu_bar_mode,
            r.silence_detection_enabled == self.silence_detection_enabled,
            r.silence_threshold == self.silence_threshold,
            r.silence_duration_ms == self.silence_duration_ms,
            r.onboarding_completed == self.onboarding_completed,
    {
        AppSettings {
            stt_hotkey: self.stt_hotkey.clone(),
            tts_hotkey: self.tts_hotkey.clone(),
            stt_model: self.stt_model.clone(),
            tts_voice: self.tts_voice.clone(),
            tts_speed_centi: self.tts_speed_centi,
            auto_paste: self.auto_paste,
            launch_at_login: self.launch_at_login,
            menu_bar_mode: self.menu_bar_mode,
            silence_detection_enabled: self.silence_detection_enabled,
            silence_threshold: self.silence_threshold,
            silence_duration_ms: self.silence_duration_ms,
            onboarding_completed: self.onboarding_completed,
        }
    }
}

impl Default for AppSettings {
    fn default() -> (r: Self)
        ensures
            r.stt_hotkey@ == "CommandOrControl+Shift+D"@,
            r.tts_hotkey@ == "CommandOrControl+Shift+S"@,
            r.stt_model@ == "ggml-base.en.bin"@,
            r.tts_voice@ == "af_heart"@,
            r.tts_speed_centi == 100,
            r.auto_paste,
            !r.launch_at_login,
            r.menu_bar_mode,
            r.silence_detection_enabled,
            r.silence_threshold == DEFAULT_SILENCE_THRESHOLD,
            r.silence_duration_ms == DEFAULT_SILENCE_DURATION_MS,
            !r.onboarding_completed,
    {
        AppSettings {
            stt_hotkey: "CommandOrControl+Shift+D".to_owned(),
            tts_hotkey: "CommandOrControl+Shift+S".to_owned(),
            stt_model: "ggml-base.en.bin".to_owned(),
            tts_voice: "af_heart".to_owned(),
            tts_speed_centi: 100,
            auto_paste: true,
            launch_at_login: false,
            menu_bar_mode: true,
            silence_detection_enabled: default_silence_enabled(),
            silence_threshold: default_silence_threshold(),
            silence_duration_ms: default_silence_duration(),
            onboarding_completed: false,
        }
    }
}

impl AppSettings {
    /// The silence-detection configuration these settings describe.
    pub fn silence_config(&self) -> (r: SilenceConfig)
        ensures
            r.enabled == self.silence_detection_enabled,
            r.threshold == self.silence_threshold,
            r.duration_ms == self.silence_duration_ms,
    {
        SilenceConfig {
            enabled: self.silence_detection_enabled,
            threshold: self.silence_threshold,
            duration_ms: self.silence_duration_ms,
        }
    }
}

} // verus!
