//! What the speech engines expose to the rest of the system: the
//! model description, the synthesized audio buffer, the voice list,
//! the speed-to-sample-rate rule and the model-file check.
//!
//! The engines themselves — the transcription context and the
//! synthesis runtime — are external collaborators; they consume and
//! produce the plain values specified here.

use vstd::prelude::*;

use crate::silence::clamp_u32;

verus! {

/// The sample rate the speech synthesiser produces, in Hz.
pub const TTS_SAMPLE_RATE: u32 = 24_000;

/// Slowest allowed speech speed, in hundredths of normal speed.
pub const MIN_SPEED_CENTI: u32 = 25;

/// Fastest allowed speech speed, in hundredths of normal speed.
pub const MAX_SPEED_CENTI: u32 = 500;

/// Description of a loaded model.
pub struct ModelInfo {
    /// Name or path of the model.
    pub name: String,
    /// Size of the model file in bytes.
    pub size_bytes: u64,
    /// Whether the model is loaded.
    pub loaded: bool,
}

impl Clone for ModelInfo {
    fn clone(&self) -> (r: Self)
        ensures
            r == *self,
    {
        ModelInfo { name: self.name.clone(), size_bytes: self.size_bytes, loaded: self.loaded }
    }
}

/// Audio produced by speech synthesis: mono samples in micro-units of
/// amplitude at the stated sample rate.
pub struct AudioBuffer {
    /// The samples, in micro-units of amplitude.
    pub samples: Vec<i32>,
    /// The playback sample rate, in Hz.
    pub sample_rate: u32,
}

/// The buffer's duration in milliseconds: `samples * 1000 /
/// sample_rate`, saturating at `u64::MAX`.
pub open spec fn spec_buffer_duration_ms(samples: nat, sample_rate: u32) -> u64
    recommends
        sample_rate >= 1,
{
    let ms = (samples as int * 1000) / (sample_rate as int);
    if ms > u64::MAX {
        u64::MAX
    } else {
        ms as u64
    }
}

impl AudioBuffer {
    /// Wrap samples with their playback rate.
    pub fn new(samples: Vec<i32>, sample_rate: u32) -> (r: AudioBuffer)
        ensures
            r.samples@ == samples@,
            r.sample_rate == sample_rate,
    {
        AudioBuffer { samples, sample_rate }
    }

    /// The samples.
    pub fn samples(&self) -> (r: &Vec<i32>)
        ensures
            r@ == self.samples@,
    {
        &self.samples
    }

    /// The buffer's duration in milliseconds.
    pub fn duration_ms(&self) -> (r: u64)
        requires
            self.sample_rate >= 1,
        ensures
            r == spec_buffer_duration_ms(self.samples@.len(), self.sample_rate),
    {
        let ms: u128 = (self.samples.len() as u128) * 1000 / (self.sample_rate as u128);
        if ms > u64::MAX as u128 {
            u64::MAX
        } else {
            ms as u64
        }
    }
}

/// One synthesis voice.
pub struct VoiceInfo {
    /// Identifier handed to the synthesiser, e.g. `af_heart`.
    pub id: String,
    /// Display name.
    pub name: String,
    /// BCP 47 language tag of the voice.
    pub language: String,
}

impl Clone for VoiceInfo {
    fn clone(&self) -> (r: Self)
        ensures
            r == *self,
    {
        VoiceInfo {
            id: self.id.clone(),
            name: self.name.clone(),
            language: self.language.clone(),
        }
    }
}

/// The fields of a voice entry.
pub open spec fn voice_is(v: VoiceInfo, id: Seq<char>, name: Seq<char>, language: Seq<char>)
    -> bool {
    v.id@ == id && v.name@ == name && v.language@ == language
}

/// The voices the synthesiser ships: five American female, two
/// American male, two British female and two British male voices.
pub fn available_voices() -> (r: Vec<VoiceInfo>)
    ensures
        r@.len() == 11,
        voice_is(r@[0], "af_heart"@, "Heart"@, "en-US"@),
        voice_is(r@[1], "af_bella"@, "Bella"@, "en-US"@),
        voice_is(r@[2], "af_nicole"@, "Nicole"@, "en-US"@),
        voice_is(r@[3], "af_sarah"@, "Sarah"@, "en-US"@),
        voice_is(r@[4], "af_sky"@, "Sky"@, "en-US"@),
        voice_is(r@[5], "am_adam"@, "Adam"@, "en-US"@),
        voice_is(r@[6], "am_michael"@, "Michael"@, "en-US"@),
        voice_is(r@[7], "bf_emma"@, "Emma"@, "en-GB"@),
        voice_is(r@[8], "bf_isabella"@, "Isabella"@, "en-GB"@),
        voice_is(r@[9], "bm_george"@, "George"@, "en-GB"@),
        voice_is(r@[10], "bm_lewis"@, "Lewis"@, "en-GB"@),
{
    let mut voices: Vec<VoiceInfo> = Vec::new();
    voices.push(VoiceInfo { id: "af_heart".to_owned(), name: "Heart".to_owned(), language: "en-US".to_owned() });
    voices.push(VoiceInfo { id: "af_bella".to_owned(), name: "Bella".to_owned(), language: "en-US".to_owned() });
    voices.push(VoiceInfo { id: "af_nicole".to_owned(), name: "Nicole".to_owned(), language: "en-US".to_owned() });
    voices.push(VoiceInfo { id: "af_sarah".to_owned(), name: "Sarah".to_owned(), language: "en-US".to_owned() });
    voices.push(VoiceInfo { id: "af_sky".to_owned(), name: "Sky".to_owned(), language: "en-US".to_owned() });
    voices.push(VoiceInfo { id: "am_adam".to_owned(), name: "Adam".to_owned(), language: "en-US".to_owned() });
    voices.push(VoiceInfo { id: "am_michael".to_owned(), name: "Michael".to_owned(), language: "en-US".to_owned() });
    voices.push(VoiceInfo { id: "bf_emma".to_owned(), name: "Emma".to_owned(), language: "en-GB".to_owned() });
    voices.push(VoiceInfo { id: "bf_isabella".to_owned(), name: "Isabella".to_owned(), language: "en-GB".to_owned() });
    voices.push(VoiceInfo { id: "bm_george".to_owned(), name: "George".to_owned(), language: "en-GB".to_owned() });
    voices.push(VoiceInfo { id: "bm_lewis".to_owned(), name: "Lewis".to_owned(), language: "en-GB".to_owned() });
    voices
}

/// The playback sample rate that realises a speech speed: the base
/// rate scaled by the speed, the speed first clamped to the allowed
/// band.  A higher rate plays the same samples faster.
pub fn calculate_adjusted_sample_rate(speed_centi: u32) -> (r: u32)
    ensures
        r == (TTS_SAMPLE_RATE as int) * (clamp_u32(speed_centi, MIN_SPEED_CENTI, MAX_SPEED_CENTI)
            as int) / 100,
{
    let clamped: u32 = if speed_centi < MIN_SPEED_CENTI {
        MIN_SPEED_CENTI
    } else if speed_centi > MAX_SPEED_CENTI {
        MAX_SPEED_CENTI
    } else {
        speed_centi
    };
    let scaled: u64 = (TTS_SAMPLE_RATE as u64) * (clamped as u64);
    (scaled / 100) as u32
}

/// Check that the synthesiser's model files are present: the caller
/// reports, for each required file, whether it exists.  The result
/// lists exactly the missing ones.
pub fn validate_model_files(onnx_present: bool, voices_present: bool) -> (r: Result<
    (),
    Vec<&'static str>,
>)
    ensures
        onnx_present && voices_present ==> r is Ok,
        !onnx_present && !voices_present ==> (r matches Err(missing) && missing@.len() == 2
            && missing@[0]@ == "kokoro-v1.0.onnx"@ && missing@[1]@ == "voices-v1.0.bin"@),
        !onnx_present && voices_present ==> (r matches Err(missing) && missing@.len() == 1
            && missing@[0]@ == "kokoro-v1.0.onnx"@),
        onnx_present && !voices_present ==> (r matches Err(missing) && missing@.len() == 1
            && missing@[0]@ == "voices-v1.0.bin"@),
{
    let mut missing: Vec<&'static str> = Vec::new();
    if !onnx_present {
        missing.push("kokoro-v1.0.onnx");
    }
    if !voices_present {
        missing.push("voices-v1.0.bin");
    }
    if missing.len() == 0 {
        Ok(())
    } else {
        Err(missing)
    }
}

} // verus!
