//! Tests of the model catalog, the download decisions, the engine
//! surface and the hardware classification.

use blah3::download::is_coreml_model;
use blah3::download::is_zip_url;
use blah3::download::needs_extraction;
use blah3::download::retry_backoff_secs;
use blah3::download::strip_archive_root;
use blah3::download::DownloadProgress;
use blah3::engines::available_voices;
use blah3::engines::calculate_adjusted_sample_rate;
use blah3::engines::validate_model_files;
use blah3::engines::AudioBuffer;
use blah3::engines::TTS_SAMPLE_RATE;
use blah3::hardware::classify_chip;
use blah3::hardware::ChipType;
use blah3::hardware::HardwareDetector;
use blah3::hardware::HardwareProfile;
use blah3::hardware::Tier;
use blah3::registry::apply_presence;
use blah3::registry::ModelRegistry;
use blah3::registry::ModelStatus;
use blah3::registry::ModelType;
use blah3::settings::AppSettings;
use blah3::tts::get_voices;

#[test]
fn test_registry_has_models() {
    let registry = ModelRegistry::new();
    let models = registry.get_all_models();
    assert!(!models.is_empty());
}

#[test]
fn test_registry_has_coreml_models() {
    let registry = ModelRegistry::new();
    let coreml = registry.get_coreml_models();

    // We should have 3 CoreML models: tiny, base, small
    assert_eq!(coreml.len(), 3);

    // All should be STT type
    for model in &coreml {
        assert_eq!(model.model_type, ModelType::Stt);
    }

    // All should have .mlmodelc suffix
    for model in &coreml {
        assert!(model.id.ends_with(".mlmodelc"));
    }
}

#[test]
fn test_coreml_models_have_zip_urls() {
    let registry = ModelRegistry::new();
    let coreml = registry.get_coreml_models();

    for model in &coreml {
        assert!(
            model.download_url.ends_with(".zip"),
            "CoreML model {} should have .zip download URL",
            model.id
        );
    }
}

#[test]
fn test_each_whisper_model_has_coreml_encoder() {
    let registry = ModelRegistry::new();
    let whisper_models = registry.get_whisper_models();
    let coreml_models = registry.get_coreml_models();

    // tiny, base, small should have CoreML versions
    // (medium doesn't have a CoreML version in our registry)
    let expected_coreml = ["tiny", "base", "small"];

    for expected in expected_coreml {
        let coreml_id = format!("ggml-{}.en-encoder.mlmodelc", expected);
        let found = coreml_models.iter().any(|m| m.id == coreml_id);
        assert!(found, "Expected CoreML model {} not found", coreml_id);

        // Verify corresponding base model exists
        let base_id = format!("ggml-{}.en.bin", expected);
        let base_found = whisper_models.iter().any(|m| m.id == base_id);
        assert!(base_found, "Expected base model {} not found", base_id);
    }
}

#[test]
fn test_get_model_by_id() {
    let registry = ModelRegistry::new();

    // Test getting a base model
    let base = registry.get_model("ggml-base.en.bin");
    assert!(base.is_some());
    assert_eq!(base.unwrap().name, "Whisper Base (English)");

    // Test getting a CoreML model
    let coreml = registry.get_model("ggml-base.en-encoder.mlmodelc");
    assert!(coreml.is_some());
    assert_eq!(coreml.unwrap().name, "CoreML Base Encoder");

    // Test getting a nonexistent model
    let none = registry.get_model("nonexistent-model");
    assert!(none.is_none());
}

#[test]
fn test_stt_models_count() {
    let registry = ModelRegistry::new();
    let stt = registry.get_stt_models();

    // 4 base whisper models + 3 CoreML encoders = 7
    assert_eq!(stt.len(), 7);
}

#[test]
fn test_tts_models_count() {
    let registry = ModelRegistry::new();
    let tts = registry.get_tts_models();

    // kokoro model + voices = 2
    assert_eq!(tts.len(), 2);
}

#[test]
fn test_all_models_have_valid_urls() {
    let registry = ModelRegistry::new();
    let models = registry.get_all_models();

    for model in &models {
        assert!(
            model.download_url.starts_with("https://"),
            "Model {} should have HTTPS URL",
            model.id
        );
        assert!(
            model.download_url.contains("huggingface.co"),
            "Model {} should be hosted on HuggingFace",
            model.id
        );
    }
}

#[test]
fn test_apply_presence_marks_status() {
    let registry = ModelRegistry::new();
    let models = registry.get_all_models();
    let mut present = vec![false; models.len()];
    present[1] = true;
    let marked = apply_presence(models, &present);
    assert_eq!(marked[1].status, ModelStatus::Downloaded);
    assert_eq!(marked[0].status, ModelStatus::Available);
    assert_eq!(marked[1].id, "ggml-base.en.bin");
}

#[test]
fn test_is_coreml_model() {
    assert!(is_coreml_model("ggml-base.en-encoder.mlmodelc"));
    assert!(is_coreml_model("ggml-tiny.en-encoder.mlmodelc"));
    assert!(!is_coreml_model("ggml-base.en.bin"));
    assert!(!is_coreml_model("kokoro-v1.0.onnx"));
}

#[test]
fn test_is_zip_url() {
    assert!(is_zip_url("https://example.com/model.mlmodelc.zip"));
    assert!(is_zip_url("https://huggingface.co/ggerganov/whisper.cpp/resolve/main/ggml-base.en-encoder.mlmodelc.zip"));
    assert!(!is_zip_url("https://example.com/model.bin"));
    assert!(!is_zip_url("https://example.com/model.onnx"));
}

#[test]
fn test_needs_extraction_for_coreml_zip() {
    assert!(needs_extraction(
        "ggml-base.en-encoder.mlmodelc",
        "https://example.com/ggml-base.en-encoder.mlmodelc.zip"
    ));
    assert!(!needs_extraction("ggml-base.en.bin", "https://example.com/ggml-base.en.bin"));
}

#[test]
fn test_download_progress_percentage() {
    let progress = DownloadProgress { downloaded: 50, total: 100, percentage: 50 };
    assert_eq!(progress.percentage, 50);

    let progress_complete = DownloadProgress { downloaded: 100, total: 100, percentage: 100 };
    assert_eq!(progress_complete.percentage, 100);
}

#[test]
fn test_download_progress_report() {
    assert_eq!(DownloadProgress::report(50, 100).percentage, 50);
    assert_eq!(DownloadProgress::report(100, 100).percentage, 100);
    assert_eq!(DownloadProgress::report(1, 3).percentage, 33);
    // Unknown total reports zero percent.
    assert_eq!(DownloadProgress::report(12345, 0).percentage, 0);
}

#[test]
fn test_retry_backoff_doubles() {
    assert_eq!(retry_backoff_secs(0), 1);
    assert_eq!(retry_backoff_secs(1), 2);
    assert_eq!(retry_backoff_secs(2), 4);
    assert_eq!(retry_backoff_secs(5), 32);
}

#[test]
fn test_strip_archive_root_drops_top_directory() {
    let member = vec!["test.mlmodelc".to_string(), "subdir".to_string(), "data.bin".to_string()];
    let stripped = strip_archive_root(&member).unwrap();
    assert_eq!(stripped, vec!["subdir".to_string(), "data.bin".to_string()]);

    // The top-level directory entry itself is skipped.
    let top = vec!["test.mlmodelc".to_string()];
    assert!(strip_archive_root(&top).is_none());
}

#[test]
fn test_sample_rate_constant() {
    assert_eq!(TTS_SAMPLE_RATE, 24000);
}

#[test]
fn test_speed_adjustment_normal() {
    // Speed 1.0 should give base sample rate
    let rate = calculate_adjusted_sample_rate(100);
    assert_eq!(rate, 24000);
}

#[test]
fn test_speed_adjustment_faster() {
    // Speed 1.5 should give higher sample rate (faster playback)
    let rate = calculate_adjusted_sample_rate(150);
    assert_eq!(rate, 36000);
}

#[test]
fn test_speed_adjustment_slower() {
    // Speed 0.5 should give lower sample rate (slower playback)
    let rate = calculate_adjusted_sample_rate(50);
    assert_eq!(rate, 12000);
}

#[test]
fn test_speed_clamping_too_fast() {
    // Speed > 5.0 should be clamped to 5.0
    let rate = calculate_adjusted_sample_rate(1000);
    assert_eq!(rate, 120000); // 24000 * 5.0
}

#[test]
fn test_speed_clamping_too_slow() {
    // Speed < 0.25 should be clamped to 0.25
    let rate = calculate_adjusted_sample_rate(10);
    assert_eq!(rate, 6000); // 24000 * 0.25
}

#[test]
fn test_speed_at_boundaries() {
    // Speed at the lower boundary
    let rate_min = calculate_adjusted_sample_rate(25);
    assert_eq!(rate_min, 6000);

    // Speed at the upper boundary
    let rate_max = calculate_adjusted_sample_rate(500);
    assert_eq!(rate_max, 120000);
}

#[test]
fn test_validate_model_files_missing_all() {
    let result = validate_model_files(false, false);
    assert!(result.is_err());

    let missing = result.unwrap_err();
    assert_eq!(missing.len(), 2);
    assert!(missing.contains(&"kokoro-v1.0.onnx"));
    assert!(missing.contains(&"voices-v1.0.bin"));
}

#[test]
fn test_validate_model_files_missing_voices() {
    // Only the model file is present.
    let result = validate_model_files(true, false);
    assert!(result.is_err());

    let missing = result.unwrap_err();
    assert_eq!(missing.len(), 1);
    assert!(missing.contains(&"voices-v1.0.bin"));
}

#[test]
fn test_validate_model_files_all_present() {
    let result = validate_model_files(true, true);
    assert!(result.is_ok());
}

#[test]
fn test_available_voices_count() {
    let voices = available_voices();

    // Should have 11 voices total
    assert_eq!(voices.len(), 11);
}

#[test]
fn test_voice_id_format() {
    // Voice IDs should follow the pattern: {lang}{gender}_{name}
    // af_ = American Female, am_ = American Male
    // bf_ = British Female, bm_ = British Male
    let voices = vec![
        ("af_heart", "en-US"),
        ("af_bella", "en-US"),
        ("am_adam", "en-US"),
        ("bf_emma", "en-GB"),
        ("bm_george", "en-GB"),
    ];

    for (id, expected_lang) in voices {
        let is_american = id.starts_with("af_") || id.starts_with("am_");
        let is_british = id.starts_with("bf_") || id.starts_with("bm_");

        assert!(
            is_american || is_british,
            "Voice ID {} should start with af_, am_, bf_, or bm_",
            id
        );

        if is_american {
            assert_eq!(expected_lang, "en-US");
        } else {
            assert_eq!(expected_lang, "en-GB");
        }
    }
}

#[test]
fn test_get_voices_listing() {
    let voices = get_voices();
    assert_eq!(voices.len(), 8);
    assert_eq!(voices[0].id, "af_heart");
    assert_eq!(voices[0].gender, "Female");
    assert_eq!(voices[7].id, "bm_george");
    assert_eq!(voices[7].language, "en-GB");
}

#[test]
fn test_audio_buffer_duration() {
    // 2.5 seconds of audio at 24 kHz.
    let sample_rate = 24000;
    let num_samples = 60000;

    let samples: Vec<i32> = vec![0; num_samples];
    let buffer = AudioBuffer::new(samples, sample_rate);

    assert_eq!(buffer.duration_ms(), 2500);
}

#[test]
fn test_audio_buffer_samples() {
    let samples = vec![100_000, 200_000, 300_000, 400_000, 500_000];
    let buffer = AudioBuffer::new(samples.clone(), 24000);

    assert_eq!(buffer.samples(), &samples);
    assert_eq!(buffer.sample_rate, 24000);
}

#[test]
fn test_classify_chip_families() {
    let (chip, name, neural, metal) = classify_chip("Apple M2 Pro");
    assert_eq!(chip, ChipType::AppleSilicon);
    assert_eq!(name, "Apple M2 Pro");
    assert!(neural);
    assert!(metal);

    let (chip, name, neural, metal) = classify_chip("Apple M1 Max");
    assert_eq!(chip, ChipType::AppleSilicon);
    assert_eq!(name, "Apple M1 Max");
    assert!(neural && metal);

    let (chip, name, neural, metal) = classify_chip("Intel(R) Core(TM) i7-9750H");
    assert_eq!(chip, ChipType::Intel);
    assert_eq!(name, "Intel(R) Core(TM) i7-9750H");
    assert!(!neural);
    assert!(metal);

    let (chip, name, neural, metal) = classify_chip("Snapdragon");
    assert_eq!(chip, ChipType::Unknown);
    assert_eq!(name, "Unknown");
    assert!(!neural && !metal);
}

#[test]
fn test_determine_tier_bands() {
    assert_eq!(HardwareDetector::determine_tier(&ChipType::AppleSilicon, 64), Tier::Power);
    assert_eq!(HardwareDetector::determine_tier(&ChipType::AppleSilicon, 32), Tier::Power);
    assert_eq!(HardwareDetector::determine_tier(&ChipType::AppleSilicon, 16), Tier::Standard);
    assert_eq!(HardwareDetector::determine_tier(&ChipType::AppleSilicon, 8), Tier::Lite);
    assert_eq!(HardwareDetector::determine_tier(&ChipType::Intel, 64), Tier::Lite);
    assert_eq!(HardwareDetector::determine_tier(&ChipType::Unknown, 64), Tier::Lite);
}

#[test]
fn test_recommended_models_by_tier() {
    let profile = HardwareProfile {
        chip: ChipType::AppleSilicon,
        chip_name: "Apple M1".to_string(),
        ram_gb: 16,
        cpu_cores: 8,
        has_neural_engine: true,
        has_metal: true,
        recommended_tier: Tier::Standard,
    };
    assert_eq!(profile.recommended_stt_model(), "ggml-base.en.bin");
    assert_eq!(profile.recommended_tts_model(), "kokoro-v1.0.onnx");

    let lite = HardwareProfile { recommended_tier: Tier::Lite, ..profile.clone() };
    assert_eq!(lite.recommended_stt_model(), "ggml-tiny.en.bin");
}

#[test]
fn test_default_settings() {
    let settings = AppSettings::default();
    assert_eq!(settings.stt_hotkey, "CommandOrControl+Shift+D");
    assert_eq!(settings.tts_hotkey, "CommandOrControl+Shift+S");
    assert_eq!(settings.stt_model, "ggml-base.en.bin");
    assert_eq!(settings.tts_voice, "af_heart");
    assert_eq!(settings.tts_speed_centi, 100);
    assert!(settings.auto_paste);
    assert!(!settings.launch_at_login);
    assert!(settings.menu_bar_mode);
    assert!(settings.silence_detection_enabled);
    assert_eq!(settings.silence_threshold, 10_000);
    assert_eq!(settings.silence_duration_ms, 1_500);
    assert!(!settings.onboarding_completed);
}
