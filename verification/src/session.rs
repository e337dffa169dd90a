//! The dictation session controller: the state machine that reacts to
//! hotkey press and release, drives the capture engine's lifecycle,
//! hands completed buffers to transcription and surfaces the session
//! events the UI shows.
//!
//! The controller is pure: every reaction is a transition from a state
//! and an event to the next state and a list of actions.  The runtime
//! outside this crate performs each action (show or hide the overlay,
//! start or stop the capture thread, run the transcription, paste) and
//! feeds the outcome back as the next event.  Within one session the
//! actions are emitted in the order of the returned list, so the
//! events the UI sees keep the order: started, audio levels, stopped,
//! transcribing, then result or error.

use vstd::prelude::*;

use crate::accessibility::FrontmostAppInfo;
use crate::capture::SilenceConfig;
use crate::settings::AppSettings;

verus! {

/// The states of a dictation session.  `Error` is reached from any
/// active phase and always returns to `Idle` once the error has been
/// shown for a bounded delay.
#[derive(Clone, Copy, PartialEq, Eq, Structural, Debug)]
pub enum SessionState {
    /// No session is running; a hotkey press starts one.
    Idle,
    /// The capture engine is recording.
    Capturing,
    /// The capture is being stopped and drained.
    Stopping,
    /// The drained buffer is being transcribed.
    Transcribing,
    /// A failure was reported; the overlay shows it before `Idle`.
    Error,
}

/// What the controller reacts to: the hotkey, and the outcomes of the
/// actions it requested earlier.
pub enum SessionEvent {
    /// The dictation hotkey was pressed; the foreground application
    /// was snapshotted beforehand, when that succeeded.
    Pressed { target_app: Option<FrontmostAppInfo> },
    /// The capture engine started.
    StartSucceeded,
    /// The capture engine could not start.
    StartFailed { message: String },
    /// The dictation hotkey was released.
    Released,
    /// The capture engine's silence trigger became observable.
    SilenceStop,
    /// The capture was stopped and its buffer drained.
    Drained { audio: Vec<i32>, silence_triggered: bool },
    /// The configured transcription model is not on disk.
    ModelMissing { message: String },
    /// Transcription finished with this text.
    TranscriptionDone { text: String },
    /// Transcription failed.
    TranscriptionFailed { message: String },
    /// The error was displayed for the bounded delay.
    ErrorShown,
}

/// What the runtime is asked to do, in list order.
pub enum SessionAction {
    /// Show the dictation overlay.
    ShowOverlay,
    /// Emit the session-started event with the foreground snapshot.
    EmitStarted { target_app: Option<FrontmostAppInfo> },
    /// Create and start the capture engine with this configuration.
    StartCapture { config: SilenceConfig },
    /// Spawn the concurrent audio-level reporting task.
    SpawnLevelTask,
    /// Emit the session-stopped event.
    EmitStopped,
    /// Stop the capture engine and drain its buffer.
    StopCapture,
    /// Emit the session-transcribing event.
    EmitTranscribing,
    /// Transcribe the buffer with the named model.
    Transcribe { audio: Vec<i32>, model: String },
    /// Emit the session-result event with the text.
    EmitResult { text: String },
    /// Paste the text into the target application.
    Paste { text: String },
    /// Emit the session-error event with the message.
    EmitError { message: String },
    /// Hide the overlay after the short display delay.
    HideOverlay,
}

/// The message emitted when a stopped session drained no samples.
pub const NO_AUDIO_MESSAGE: &'static str = "No audio captured. Please check microphone permissions.";

/// The dictation session controller.
pub struct SessionController {
    /// Current session state.
    pub state: SessionState,
    /// Foreground application captured at press time, if any.
    pub target_app: Option<FrontmostAppInfo>,
    /// Whether the last drain was caused by the silence trigger.
    pub silence_triggered: bool,
}

/// Which state/event pairs the controller reacts to; every other pair
/// is ignored: nothing changes and nothing is requested.  In
/// particular a hotkey press while a session is running is a no-op,
/// never queued and never an error.
pub open spec fn reacts_to(state: SessionState, event: SessionEvent) -> bool {
    match event {
        SessionEvent::Pressed { .. } => state is Idle,
        SessionEvent::StartSucceeded => state is Capturing,
        SessionEvent::StartFailed { .. } => state is Capturing,
        SessionEvent::Released => state is Capturing,
        SessionEvent::SilenceStop => state is Capturing,
        SessionEvent::Drained { .. } => state is Stopping,
        SessionEvent::ModelMissing { .. } => state is Transcribing,
        SessionEvent::TranscriptionDone { .. } => state is Transcribing,
        SessionEvent::TranscriptionFailed { .. } => state is Transcribing,
        SessionEvent::ErrorShown => state is Error,
    }
}

impl SessionController {
    /// A controller starts idle, with no target application and no
    /// silence trigger recorded.
    pub fn new() -> (r: SessionController)
        ensures
            r.state is Idle,
            r.target_app is None,
            !r.silence_triggered,
    {
        SessionController { state: SessionState::Idle, target_app: None, silence_triggered: false }
    }

    /// React to one event: move to the next state and return the
    /// actions the runtime must perform, in order.
    ///
    /// The contract states every transition in full:
    /// press starts a session (overlay, started event, capture start);
    /// release or the silence trigger stops it (stopped event, drain);
    /// an empty drain is an error, a non-empty one goes to
    /// transcription; a result is emitted and pasted when auto-paste
    /// is on and the text non-empty; every failure shows its message
    /// and hides the overlay; and the error state returns to idle
    /// after being shown.
    pub fn handle_event(&mut self, event: SessionEvent, settings: &AppSettings) -> (r: Vec<
        SessionAction,
    >)
        ensures
            !reacts_to(old(self).state, event) ==> *final(self) == *old(self) && r@.len() == 0,
            event matches SessionEvent::Pressed { target_app } ==> (old(self).state is Idle
                ==> final(self).state is Capturing && final(self).target_app == target_app
                && !final(self).silence_triggered && r@ =~= seq![
                SessionAction::ShowOverlay,
                SessionAction::EmitStarted { target_app },
                SessionAction::StartCapture {
                    config: SilenceConfig {
                        enabled: settings.silence_detection_enabled,
                        threshold: settings.silence_threshold,
                        duration_ms: settings.silence_duration_ms,
                    },
                },
            ]),
            (event is StartSucceeded && old(self).state is Capturing) ==> final(self).state
                is Capturing && final(self).target_app == old(self).target_app && r@ =~= seq![
                SessionAction::SpawnLevelTask,
            ],
            event matches SessionEvent::StartFailed { message } ==> (old(self).state
                is Capturing ==> final(self).state is Error && r@ =~= seq![
                SessionAction::EmitError { message },
                SessionAction::HideOverlay,
            ]),
            ((event is Released || event is SilenceStop) && old(self).state is Capturing)
                ==> final(self).state is Stopping && final(self).target_app == old(
                self,
            ).target_app && r@ =~= seq![SessionAction::EmitStopped, SessionAction::StopCapture],
            event matches SessionEvent::Drained { audio, silence_triggered } ==> (old(self).state
                is Stopping ==> final(self).silence_triggered == silence_triggered && (if audio@
                .len() == 0 {
                final(self).state is Error && r@.len() == 2 && (r@[0] matches
                SessionAction::EmitError { message: m } && m@ == NO_AUDIO_MESSAGE@) && r@[1]
                    == SessionAction::HideOverlay
            } else {
                final(self).state is Transcribing && r@.len() == 2 && r@[0]
                    == SessionAction::EmitTranscribing && (r@[1] matches
                SessionAction::Transcribe { audio: a, model: m } && a == audio && m@ == settings
                    .stt_model@)
            })),
            event matches SessionEvent::ModelMissing { message } ==> (old(self).state
                is Transcribing ==> final(self).state is Error && r@ =~= seq![
                SessionAction::EmitError { message },
                SessionAction::HideOverlay,
            ]),
            event matches SessionEvent::TranscriptionDone { text } ==> (old(self).state
                is Transcribing ==> final(self).state is Idle && (if settings.auto_paste && text@
                .len() > 0 {
                r@ =~= seq![
                    SessionAction::EmitResult { text },
                    SessionAction::Paste { text },
                    SessionAction::HideOverlay,
                ]
            } else {
                r@ =~= seq![SessionAction::EmitResult { text }, SessionAction::HideOverlay]
            })),
            event matches SessionEvent::TranscriptionFailed { message } ==> (old(self).state
                is Transcribing ==> final(self).state is Error && r@ =~= seq![
                SessionAction::EmitError { message },
                SessionAction::HideOverlay,
            ]),
            (event is ErrorShown && old(self).state is Error) ==> final(self).state is Idle && r@
                .len() == 0,
            !(event matches SessionEvent::Pressed { .. }) ==> final(self).target_app == old(
                self,
            ).target_app,
            !(event matches SessionEvent::Pressed { .. }) && !(event matches
            SessionEvent::Drained { .. }) ==> final(self).silence_triggered == old(
                self,
            ).silence_triggered,
    {
        let mut actions: Vec<SessionAction> = Vec::new();
        match event {
            SessionEvent::Pressed { target_app } => {
                if self.state_is_idle() {
                    self.state = SessionState::Capturing;
                    self.silence_triggered = false;
                    self.target_app = clone_app_option(&target_app);
                    actions.push(SessionAction::ShowOverlay);
                    actions.push(SessionAction::EmitStarted { target_app });
                    actions.push(
                        SessionAction::StartCapture { config: settings.silence_config() },
                    );
                }
            },
            SessionEvent::StartSucceeded => {
                if self.state_is(SessionState::Capturing) {
                    actions.push(SessionAction::SpawnLevelTask);
                }
            },
            SessionEvent::StartFailed { message } => {
                if self.state_is(SessionState::Capturing) {
                    self.state = SessionState::Error;
                    actions.push(SessionAction::EmitError { message });
                    actions.push(SessionAction::HideOverlay);
                }
            },
            SessionEvent::Released => {
                if self.state_is(SessionState::Capturing) {
                    self.state = SessionState::Stopping;
                    actions.push(SessionAction::EmitStopped);
                    actions.push(SessionAction::StopCapture);
                }
            },
            SessionEvent::SilenceStop => {
                if self.state_is(SessionState::Capturing) {
                    self.state = SessionState::Stopping;
                    actions.push(SessionAction::EmitStopped);
                    actions.push(SessionAction::StopCapture);
                }
            },
            SessionEvent::Drained { audio, silence_triggered } => {
                if self.state_is(SessionState::Stopping) {
                    self.silence_triggered = silence_triggered;
                    if audio.len() == 0 {
                        self.state = SessionState::Error;
                        actions.push(
                            SessionAction::EmitError { message: NO_AUDIO_MESSAGE.to_owned() },
                        );
                        actions.push(SessionAction::HideOverlay);
                    } else {
                        self.state = SessionState::Transcribing;
                        actions.push(SessionAction::EmitTranscribing);
                        actions.push(
                            SessionAction::Transcribe {
                                audio,
                                model: settings.stt_model.clone(),
                            },
                        );
                    }
                }
            },
            SessionEvent::ModelMissing { message } => {
                if self.state_is(SessionState::Transcribing) {
                    self.state = SessionState::Error;
                    actions.push(SessionAction::EmitError { message });
                    actions.push(SessionAction::HideOverlay);
                }
            },
            SessionEvent::TranscriptionDone { text } => {
                if self.state_is(SessionState::Transcribing) {
                    self.state = SessionState::Idle;
                    if settings.auto_paste && text.unicode_len() > 0 {
                        let pasted = text.clone();
                        actions.push(SessionAction::EmitResult { text });
                        actions.push(SessionAction::Paste { text: pasted });
                    } else {
                        actions.push(SessionAction::EmitResult { text });
                    }
                    actions.push(SessionAction::HideOverlay);
                }
            },
            SessionEvent::TranscriptionFailed { message } => {
                if self.state_is(SessionState::Transcribing) {
                    self.state = SessionState::Error;
                    actions.push(SessionAction::EmitError { message });
                    actions.push(SessionAction::HideOverlay);
                }
            },
            SessionEvent::ErrorShown => {
                if self.state_is(SessionState::Error) {
                    self.state = SessionState::Idle;
                }
            },
        }
        actions
    }

    fn state_is_idle(&self) -> (r: bool)
        ensures
            r == (self.state is Idle),
    {
        self.state_is(SessionState::Idle)
    }

    fn state_is(&self, s: SessionState) -> (r: bool)
        ensures
            r == (self.state == s),
    {
        self.state == s
    }
}

/// What the read-aloud hotkey leads to.
pub enum TtsReaction {
    /// Nothing: the event was not a press.
    Ignore,
    /// No usable selection: report this message as the speech error.
    ReportNoSelection { message: String },
    /// Read this text aloud with the configured voice and speed.
    Speak { text: String, voice: String, speed_centi: u32 },
}

/// React to the read-aloud hotkey: a single press reads the current
/// selection.
///
/// Only a press counts.  An absent or empty selection is reported as
/// an error; otherwise the selection is spoken with the voice and
/// speed of the settings.
pub fn handle_tts_shortcut(pressed: bool, selected_text: Option<String>, settings: &AppSettings)
    -> (r: TtsReaction)
    ensures
        !pressed ==> r is Ignore,
        pressed && (selected_text is None || selected_text->0@.len() == 0) ==> (r matches
        TtsReaction::ReportNoSelection { message } && message@
            == "No text selected. Please select some text first."@),
        pressed && selected_text is Some && selected_text->0@.len() > 0 ==> (r matches
        TtsReaction::Speak { text, voice, speed_centi } && text == selected_text->0 && voice@
            == settings.tts_voice@ && speed_centi == settings.tts_speed_centi),
{
    if !pressed {
        return TtsReaction::Ignore;
    }
    match selected_text {
        Some(text) => {
            if text.unicode_len() == 0 {
                TtsReaction::ReportNoSelection {
                    message: "No text selected. Please select some text first.".to_owned(),
                }
            } else {
                TtsReaction::Speak {
                    text,
                    voice: settings.tts_voice.clone(),
                    speed_centi: settings.tts_speed_centi,
                }
            }
        },
        None => TtsReaction::ReportNoSelection {
            message: "No text selected. Please select some text first.".to_owned(),
        },
    }
}

/// Clone an optional foreground-application snapshot.
fn clone_app_option(a: &Option<FrontmostAppInfo>) -> (r: Option<FrontmostAppInfo>)
    ensures
        r == *a,
{
    match a {
        Some(info) => Some(info.clone()),
        None => None,
    }
}

} // verus!
