//! Tests of the capture engine model, the recording commands, the
//! dictation session controller and the parsers around them.

use blah3::accessibility::parse_frontmost_output;
use blah3::accessibility::type_text;
use blah3::accessibility::FrontmostAppInfo;
use blah3::capture::AudioCapture;
use blah3::capture::CaptureError;
use blah3::capture::SilenceConfig;
use blah3::hotkeys::parse_shortcut;
use blah3::hotkeys::KeyCode;
use blah3::playback::AudioPlayer;
use blah3::recorder::RecorderState;
use blah3::session::handle_tts_shortcut;
use blah3::session::SessionAction;
use blah3::session::SessionController;
use blah3::session::SessionEvent;
use blah3::session::SessionState;
use blah3::session::TtsReaction;
use blah3::settings::AppSettings;

#[test]
fn test_capture_start_twice_already_recording() {
    let mut capture = AudioCapture::new(true).unwrap();
    assert!(capture.start().is_ok());
    capture.push_chunk(&[100_000, 200_000]);

    // A second start fails and does not corrupt the session's buffer.
    let second = capture.start();
    assert!(matches!(second, Err(CaptureError::AlreadyRecording)));
    let samples = capture.stop().unwrap();
    assert_eq!(samples, vec![100_000, 200_000]);
}

#[test]
fn test_capture_no_input_device() {
    let result = AudioCapture::new(false);
    assert!(matches!(result, Err(CaptureError::NoInputDevice)));
}

#[test]
fn test_capture_stop_without_chunks_is_empty() {
    let mut capture = AudioCapture::new(true).unwrap();
    assert!(capture.start().is_ok());
    let samples = capture.stop().unwrap();
    assert!(samples.is_empty());
}

#[test]
fn test_capture_silence_trigger_stops_recording() {
    let config = SilenceConfig { enabled: true, threshold: 10_000, duration_ms: 500 };
    let mut capture = AudioCapture::with_silence_config(config, true).unwrap();
    assert!(capture.start().is_ok());

    // Speech, then a full second of silence at 16 kHz: the detector
    // needs 8000 silent samples, so the trigger fires.
    capture.push_chunk(&vec![500_000; 4000]);
    assert!(!capture.is_silence_triggered());
    capture.push_chunk(&vec![0; 16000]);
    assert!(capture.is_silence_triggered());

    let samples = capture.stop().unwrap();
    assert_eq!(samples.len(), 20000);
}

#[test]
fn test_capture_sample_rate_fixed() {
    let capture = AudioCapture::new(true).unwrap();
    assert_eq!(capture.sample_rate(), 16000);
}

#[test]
fn test_capture_level_follows_last_chunk() {
    let mut capture = AudioCapture::new(true).unwrap();
    assert!(capture.start().is_ok());
    assert_eq!(capture.current_level(), 0);
    capture.push_chunk(&vec![300_000; 100]);
    assert_eq!(capture.current_level(), 300_000);
    capture.push_chunk(&vec![0; 100]);
    assert_eq!(capture.current_level(), 0);
}

#[test]
fn test_recorder_start_and_stop() {
    let settings = AppSettings::default();
    let mut recorder = RecorderState::new();
    assert!(!recorder.is_recording());

    assert!(recorder.start_recording(&settings, true).is_ok());
    assert!(recorder.is_recording());

    // Starting again while active is refused.
    let again = recorder.start_recording(&settings, true);
    assert_eq!(again.unwrap_err(), "Already recording");

    let result = recorder.stop_recording().unwrap();
    assert!(result.audio_data.is_empty());
    assert!(!result.silence_triggered);
    assert!(!recorder.is_recording());
}

#[test]
fn test_recorder_stop_without_start() {
    let mut recorder = RecorderState::new();
    let result = recorder.stop_recording();
    assert_eq!(result.unwrap_err(), "Not recording");
}

#[test]
fn test_recorder_no_device() {
    let settings = AppSettings::default();
    let mut recorder = RecorderState::new();
    let result = recorder.start_recording(&settings, false);
    assert_eq!(result.unwrap_err(), "No input device available");
    assert!(!recorder.is_recording());
    assert!(!recorder.is_silence_triggered());
}

#[test]
fn test_session_full_flow() {
    // A full session: press, speech, release before the silence
    // threshold - Idle, Capturing, Stopping, Transcribing, Idle, with
    // the events in order and no silence trigger.
    let settings = AppSettings::default();
    let mut controller = SessionController::new();
    assert_eq!(controller.state, SessionState::Idle);

    let app = FrontmostAppInfo { name: "Notes".to_string(), bundle_id: "com.apple.Notes".to_string() };
    let actions = controller.handle_event(
        SessionEvent::Pressed { target_app: Some(app) },
        &settings,
    );
    assert_eq!(controller.state, SessionState::Capturing);
    assert_eq!(actions.len(), 3);
    assert!(matches!(actions[0], SessionAction::ShowOverlay));
    assert!(matches!(&actions[1], SessionAction::EmitStarted { target_app: Some(a) } if a.name == "Notes"));
    assert!(matches!(&actions[2], SessionAction::StartCapture { config } if config.enabled));

    let actions = controller.handle_event(SessionEvent::StartSucceeded, &settings);
    assert_eq!(actions.len(), 1);
    assert!(matches!(actions[0], SessionAction::SpawnLevelTask));

    // One second of speech was captured; the user releases the key.
    let actions = controller.handle_event(SessionEvent::Released, &settings);
    assert_eq!(controller.state, SessionState::Stopping);
    assert_eq!(actions.len(), 2);
    assert!(matches!(actions[0], SessionAction::EmitStopped));
    assert!(matches!(actions[1], SessionAction::StopCapture));

    let audio = vec![400_000; 16000];
    let actions = controller.handle_event(
        SessionEvent::Drained { audio, silence_triggered: false },
        &settings,
    );
    assert_eq!(controller.state, SessionState::Transcribing);
    assert!(!controller.silence_triggered);
    assert_eq!(actions.len(), 2);
    assert!(matches!(actions[0], SessionAction::EmitTranscribing));
    assert!(matches!(&actions[1], SessionAction::Transcribe { audio, model }
        if audio.len() == 16000 && model == "ggml-base.en.bin"));

    let actions = controller.handle_event(
        SessionEvent::TranscriptionDone { text: "hello world".to_string() },
        &settings,
    );
    assert_eq!(controller.state, SessionState::Idle);
    assert_eq!(actions.len(), 3);
    assert!(matches!(&actions[0], SessionAction::EmitResult { text } if text == "hello world"));
    assert!(matches!(&actions[1], SessionAction::Paste { text } if text == "hello world"));
    assert!(matches!(actions[2], SessionAction::HideOverlay));
}

#[test]
fn test_session_press_while_active_is_ignored() {
    let settings = AppSettings::default();
    let mut controller = SessionController::new();
    controller.handle_event(SessionEvent::Pressed { target_app: None }, &settings);
    assert_eq!(controller.state, SessionState::Capturing);

    // A second press while not idle changes nothing.
    let actions = controller.handle_event(SessionEvent::Pressed { target_app: None }, &settings);
    assert!(actions.is_empty());
    assert_eq!(controller.state, SessionState::Capturing);
}

#[test]
fn test_session_empty_capture_is_error() {
    let settings = AppSettings::default();
    let mut controller = SessionController::new();
    controller.handle_event(SessionEvent::Pressed { target_app: None }, &settings);
    controller.handle_event(SessionEvent::Released, &settings);

    let actions = controller.handle_event(
        SessionEvent::Drained { audio: vec![], silence_triggered: false },
        &settings,
    );
    assert_eq!(controller.state, SessionState::Error);
    assert_eq!(actions.len(), 2);
    assert!(matches!(&actions[0], SessionAction::EmitError { message }
        if message == "No audio captured. Please check microphone permissions."));
    assert!(matches!(actions[1], SessionAction::HideOverlay));

    // After the error was shown, the controller is idle again.
    let actions = controller.handle_event(SessionEvent::ErrorShown, &settings);
    assert!(actions.is_empty());
    assert_eq!(controller.state, SessionState::Idle);
}

#[test]
fn test_session_silence_stop_and_failure() {
    let settings = AppSettings::default();
    let mut controller = SessionController::new();
    controller.handle_event(SessionEvent::Pressed { target_app: None }, &settings);

    // The engine's silence trigger stops the session like a release.
    let actions = controller.handle_event(SessionEvent::SilenceStop, &settings);
    assert_eq!(controller.state, SessionState::Stopping);
    assert!(matches!(actions[0], SessionAction::EmitStopped));

    controller.handle_event(
        SessionEvent::Drained { audio: vec![1000; 100], silence_triggered: true },
        &settings,
    );
    assert!(controller.silence_triggered);

    let actions = controller.handle_event(
        SessionEvent::TranscriptionFailed { message: "model exploded".to_string() },
        &settings,
    );
    assert_eq!(controller.state, SessionState::Error);
    assert!(matches!(&actions[0], SessionAction::EmitError { message } if message == "model exploded"));
}

#[test]
fn test_session_no_paste_when_disabled() {
    let mut settings = AppSettings::default();
    settings.auto_paste = false;
    let mut controller = SessionController::new();
    controller.handle_event(SessionEvent::Pressed { target_app: None }, &settings);
    controller.handle_event(SessionEvent::Released, &settings);
    controller.handle_event(
        SessionEvent::Drained { audio: vec![1; 10], silence_triggered: false },
        &settings,
    );
    let actions = controller.handle_event(
        SessionEvent::TranscriptionDone { text: "abc".to_string() },
        &settings,
    );
    assert_eq!(actions.len(), 2);
    assert!(matches!(&actions[0], SessionAction::EmitResult { text } if text == "abc"));
    assert!(matches!(actions[1], SessionAction::HideOverlay));
}

#[test]
fn test_tts_shortcut_reactions() {
    let settings = AppSettings::default();

    let ignored = handle_tts_shortcut(false, Some("text".to_string()), &settings);
    assert!(matches!(ignored, TtsReaction::Ignore));

    let nothing = handle_tts_shortcut(true, None, &settings);
    assert!(matches!(&nothing, TtsReaction::ReportNoSelection { message }
        if message == "No text selected. Please select some text first."));

    let empty = handle_tts_shortcut(true, Some(String::new()), &settings);
    assert!(matches!(empty, TtsReaction::ReportNoSelection { .. }));

    let speak = handle_tts_shortcut(true, Some("read me".to_string()), &settings);
    assert!(matches!(&speak, TtsReaction::Speak { text, voice, speed_centi }
        if text == "read me" && voice == "af_heart" && *speed_centi == 100));
}

#[test]
fn test_parse_shortcut_default_bindings() {
    let parsed = parse_shortcut("CommandOrControl+Shift+D").unwrap();
    assert!(parsed.modifiers.super_key);
    assert!(parsed.modifiers.shift);
    assert!(!parsed.modifiers.control);
    assert!(!parsed.modifiers.alt);
    assert_eq!(parsed.code, KeyCode::KeyD);

    let parsed = parse_shortcut("CommandOrControl+Shift+S").unwrap();
    assert_eq!(parsed.code, KeyCode::KeyS);
}

#[test]
fn test_parse_shortcut_trims_and_lowers() {
    let parsed = parse_shortcut(" Ctrl + Alt + f5 ").unwrap();
    assert!(parsed.modifiers.control);
    assert!(parsed.modifiers.alt);
    assert!(!parsed.modifiers.super_key);
    assert_eq!(parsed.code, KeyCode::F5);
}

#[test]
fn test_parse_shortcut_without_key_fails() {
    assert!(parse_shortcut("Shift").is_none());
    assert!(parse_shortcut("").is_none());
    assert!(parse_shortcut("Cmd+Nonsense").is_none());
}

#[test]
fn test_parse_shortcut_bare_key_and_specials() {
    let parsed = parse_shortcut("space").unwrap();
    assert!(parsed.modifiers.is_empty());
    assert_eq!(parsed.code, KeyCode::Space);

    assert_eq!(parse_shortcut("Return").unwrap().code, KeyCode::Enter);
    assert_eq!(parse_shortcut("Esc").unwrap().code, KeyCode::Escape);
    assert_eq!(parse_shortcut("Option+Backspace").unwrap().code, KeyCode::Backspace);
    assert_eq!(parse_shortcut("Super+9").unwrap().code, KeyCode::Digit9);
}

#[test]
fn test_parse_frontmost_output_splits_at_bar() {
    let info = parse_frontmost_output("Safari|com.apple.Safari");
    assert_eq!(info.name, "Safari");
    assert_eq!(info.bundle_id, "com.apple.Safari");

    let plain = parse_frontmost_output("Terminal");
    assert_eq!(plain.name, "Terminal");
    assert_eq!(plain.bundle_id, "");
}

#[test]
fn test_type_text_is_unimplemented() {
    let result = type_text("hello");
    assert_eq!(result.unwrap_err(), "Not implemented - use paste_text instead");
}

#[test]
fn test_player_flags() {
    let mut player = AudioPlayer::new().unwrap();
    assert!(!player.is_playing());
    player.begin_playback();
    assert!(player.is_playing());
    player.stop();
    assert!(player.is_playing());
    player.finish_playback();
    assert!(!player.is_playing());
}
