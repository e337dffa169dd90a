//! Tests of the RMS computation and the silence detector.
//!
//! Amplitudes are in micro-units: 1_000_000 is full scale, so 0.5 of
//! full scale is 500_000 and the default threshold of 0.01 is 10_000.

use blah3::silence::calculate_rms;
use blah3::silence::SilenceDetector;
use blah3::silence::DEFAULT_SILENCE_THRESHOLD;
use blah3::silence::MAX_SILENCE_THRESHOLD;
use blah3::silence::MIN_SILENCE_THRESHOLD;

#[test]
fn test_calculate_rms_silence() {
    let samples = vec![0i32; 1000];
    assert_eq!(calculate_rms(&samples), 0);
}

#[test]
fn test_calculate_rms_constant() {
    // Constant signal: RMS equals the absolute value, exactly.
    let samples = vec![500_000i32; 1000];
    assert_eq!(calculate_rms(&samples), 500_000);
}

#[test]
fn test_calculate_rms_sine_wave() {
    // Sine wave: RMS = peak / sqrt(2), within 1% of full scale.
    let samples: Vec<i32> = (0..16000)
        .map(|i| ((i as f32 * 2.0 * std::f32::consts::PI / 16000.0).sin() * 1_000_000.0) as i32)
        .collect();
    let rms = calculate_rms(&samples) as f32;
    let expected = 1_000_000.0 / std::f32::consts::SQRT_2;
    assert!((rms - expected).abs() < 10_000.0);
}

#[test]
fn test_calculate_rms_empty() {
    let samples: Vec<i32> = vec![];
    assert_eq!(calculate_rms(&samples), 0);
}

#[test]
fn test_silence_detector_new() {
    let detector = SilenceDetector::new(20_000, 1_500, 16000);
    assert_eq!(detector.threshold(), 20_000);
    assert!(!detector.is_triggered());
    assert!(!detector.has_speech());
}

#[test]
fn test_silence_detector_threshold_clamping() {
    // Too low
    let detector = SilenceDetector::new(100, 1_500, 16000);
    assert_eq!(detector.threshold(), MIN_SILENCE_THRESHOLD);

    // Too high
    let detector = SilenceDetector::new(500_000, 1_500, 16000);
    assert_eq!(detector.threshold(), MAX_SILENCE_THRESHOLD);
}

#[test]
fn test_silence_detector_no_trigger_without_speech() {
    // Should not trigger if no speech detected first
    let mut detector = SilenceDetector::new(10_000, 500, 16000);

    // Send 4 seconds of silence
    let silence = vec![0i32; 16000];
    for _ in 0..4 {
        detector.process(&silence);
    }

    // Should not trigger because no speech was detected
    assert!(!detector.is_triggered());
}

#[test]
fn test_silence_detector_triggers_after_speech() {
    let mut detector = SilenceDetector::new(10_000, 500, 16000);

    // Send some speech (loud signal)
    let speech: Vec<i32> = (0..8000)
        .map(|i| (0.5 * (i as f32 * 0.1).sin() * 1_000_000.0) as i32)
        .collect();
    detector.process(&speech);
    assert!(detector.has_speech());
    assert!(!detector.is_triggered());

    // Send silence - 0.5s at 16kHz = 8000 samples needed
    // Send slightly less than threshold first
    let silence = vec![0i32; 4000]; // 0.25s - not enough yet
    assert!(!detector.process(&silence));

    // Send more silence to exceed threshold
    let more_silence = vec![0i32; 8000]; // Another 0.5s, total > 0.5s
    assert!(detector.process(&more_silence)); // Should trigger now
}

#[test]
fn test_silence_detector_resets_on_speech() {
    let mut detector = SilenceDetector::new(10_000, 500, 16000);

    // Speech first
    let speech = vec![500_000i32; 4000];
    detector.process(&speech);

    // Some silence
    let silence = vec![0i32; 4000];
    detector.process(&silence);

    // More speech - should reset counter
    detector.process(&speech);
    assert_eq!(detector.silent_samples, 0);

    // Silence again - counter starts fresh
    detector.process(&silence);
    assert!(!detector.is_triggered());
}

#[test]
fn test_silence_detector_reset() {
    let mut detector = SilenceDetector::new(10_000, 500, 16000);

    // Trigger the detector
    let speech = vec![500_000i32; 4000];
    detector.process(&speech);
    let silence = vec![0i32; 16000];
    detector.process(&silence);
    assert!(detector.is_triggered());

    // Reset and verify
    detector.reset();
    assert!(!detector.is_triggered());
    assert!(!detector.has_speech());
    assert_eq!(detector.silence_duration(), 0);
}

#[test]
fn test_silence_duration() {
    let mut detector = SilenceDetector::new(10_000, 2_000, 16000);

    // Speak first
    let speech = vec![500_000i32; 4000];
    detector.process(&speech);

    // 0.5 seconds of silence
    let silence = vec![0i32; 8000];
    detector.process(&silence);

    assert_eq!(detector.silence_duration(), 500);
}

#[test]
fn test_with_defaults() {
    let detector = SilenceDetector::with_defaults(16000);
    assert_eq!(detector.threshold(), DEFAULT_SILENCE_THRESHOLD);
}

#[test]
fn test_detector_scenario_exact_crossing() {
    // threshold 0.01, duration 0.5s, 16 kHz: 8000 samples needed.
    let mut detector = SilenceDetector::new(10_000, 500, 16000);
    assert_eq!(detector.samples_needed, 8000);

    // 4000 samples at amplitude 0.5: speech.
    let speech = vec![500_000i32; 4000];
    assert!(!detector.process(&speech));
    assert!(detector.has_speech());

    // 4000 silent samples: below the duration, no trigger.
    let silence = vec![0i32; 4000];
    assert!(!detector.process(&silence));

    // 8000 more silent samples cross the duration: trigger.
    let more = vec![0i32; 8000];
    assert!(detector.process(&more));
}

#[test]
fn test_detector_empty_chunk_changes_nothing() {
    let mut detector = SilenceDetector::new(10_000, 500, 16000);
    let empty: Vec<i32> = vec![];
    assert!(!detector.process(&empty));
    assert!(!detector.has_speech());
    assert_eq!(detector.silence_duration(), 0);
}

#[test]
fn test_rms_exact_on_constant_negative() {
    // RMS of a constant negative signal is its absolute value.
    let samples = vec![-250_000i32; 64];
    assert_eq!(calculate_rms(&samples), 250_000);
}
