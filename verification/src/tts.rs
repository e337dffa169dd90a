//! The read-aloud command surface: the voice list the UI offers, with
//! each voice's gender alongside the synthesiser's own data.

use vstd::prelude::*;

verus! {

/// One voice as the UI lists it.
pub struct VoiceInfo {
    /// Identifier handed to the synthesiser, e.g. `af_heart`.
    pub id: String,
    /// Display name.
    pub name: String,
    /// BCP 47 language tag of the voice.
    pub language: String,
    /// Gender of the voice as displayed.
    pub gender: String,
}

impl Clone for VoiceInfo {
    fn clone(&self) -> (r: Self)
        ensures
            r == *self,
    {
        VoiceInfo {
            id: self.id.clone(),
            name: self.name.clone(),
            language: self.language.clone(),
            gender: self.gender.clone(),
        }
    }
}

/// The fields of a listed voice.
pub open spec fn listed_voice_is(
    v: VoiceInfo,
    id: Seq<char>,
    name: Seq<char>,
    language: Seq<char>,
    gender: Seq<char>,
) -> bool {
    v.id@ == id && v.name@ == name && v.language@ == language && v.gender@ == gender
}

/// The voices the UI offers: a subset of the synthesiser's voices,
/// each with its display gender.
pub fn get_voices() -> (r: Vec<VoiceInfo>)
    ensures
        r@.len() == 8,
        listed_voice_is(r@[0], "af_heart"@, "Heart"@, "en-US"@, "Female"@),
        listed_voice_is(r@[1], "af_bella"@, "Bella"@, "en-US"@, "Female"@),
        listed_voice_is(r@[2], "af_nicole"@, "Nicole"@, "en-US"@, "Female"@),
        listed_voice_is(r@[3], "af_sky"@, "Sky"@, "en-US"@, "Female"@),
        listed_voice_is(r@[4], "am_adam"@, "Adam"@, "en-US"@, "Male"@),
        listed_voice_is(r@[5], "am_michael"@, "Michael"@, "en-US"@, "Male"@),
        listed_voice_is(r@[6], "bf_emma"@, "Emma"@, "en-GB"@, "Female"@),
        listed_voice_is(r@[7], "bm_george"@, "George"@, "en-GB"@, "Male"@),
{
    let mut voices: Vec<VoiceInfo> = Vec::new();
    voices.push(VoiceInfo {
        id: "af_heart".to_owned(),
        name: "Heart".to_owned(),
        language: "en-US".to_owned(),
        gender: "Female".to_owned(),
    });
    voices.push(VoiceInfo {
        id: "af_bella".to_owned(),
        name: "Bella".to_owned(),
        language: "en-US".to_owned(),
        gender: "Female".to_owned(),
    });
    voices.push(VoiceInfo {
        id: "af_nicole".to_owned(),
        name: "Nicole".to_owned(),
        language: "en-US".to_owned(),
        gender: "Female".to_owned(),
    });
    voices.push(VoiceInfo {
        id: "af_sky".to_owned(),
        name: "Sky".to_owned(),
        language: "en-US".to_owned(),
        gender: "Female".to_owned(),
    });
    voices.push(VoiceInfo {
        id: "am_adam".to_owned(),
        name: "Adam".to_owned(),
        language: "en-US".to_owned(),
        gender: "Male".to_owned(),
    });
    voices.push(VoiceInfo {
        id: "am_michael".to_owned(),
        name: "Michael".to_owned(),
        language: "en-US".to_owned(),
        gender: "Male".to_owned(),
    });
    voices.push(VoiceInfo {
        id: "bf_emma".to_owned(),
        name: "Emma".to_owned(),
        language: "en-GB".to_owned(),
        gender: "Female".to_owned(),
    });
    voices.push(VoiceInfo {
        id: "bm_george".to_owned(),
        name: "George".to_owned(),
        language: "en-GB".to_owned(),
        gender: "Male".to_owned(),
    });
    voices
}

} // verus!
