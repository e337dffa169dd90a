//! The model catalog: which speech models exist, where they are
//! downloaded from, and how they are grouped.
//!
//! Checking what is on disk, downloading and deleting are I/O outside
//! this crate; they look models up here and report the status back.

use vstd::prelude::*;

use crate::strutil::seq_ends_with;
use crate::strutil::str_eq_str;
use crate::strutil::str_ends_with;

verus! {

/// Whether a model serves speech-to-text or text-to-speech.
#[derive(Clone, Copy, PartialEq, Eq, Structural, Debug)]
pub enum ModelType {
    /// Speech to text.
    Stt,
    /// Text to speech.
    Tts,
}

/// Whether a model is on disk, being fetched, or only available.
#[derive(Clone, Copy, PartialEq, Eq, Structural, Debug)]
pub enum ModelStatus {
    /// Not on disk; can be downloaded.
    Available,
    /// On disk.
    Downloaded,
    /// A download is in progress.
    Downloading,
}

/// One entry of the model catalog.
pub struct ModelInfo {
    /// File name of the model, the catalog key.
    pub id: String,
    /// Display name.
    pub name: String,
    /// What the model serves.
    pub model_type: ModelType,
    /// Download size in bytes.
    pub size_bytes: u64,
    /// Download size as the UI shows it.
    pub size_display: String,
    /// Where the model is downloaded from.
    pub download_url: String,
    /// Whether the model is on disk.
    pub status: ModelStatus,
    /// One-line description.
    pub description: String,
}

impl Clone for ModelInfo {
    fn clone(&self) -> (r: Self)
        ensures
            r == *self,
    {
        ModelInfo {
            id: self.id.clone(),
            name: self.name.clone(),
            model_type: self.model_type,
            size_bytes: self.size_bytes,
            size_display: self.size_display.clone(),
            download_url: self.download_url.clone(),
            status: self.status,
            description: self.description.clone(),
        }
    }
}

/// The fields of a catalog entry that the rest of the system keys on.
pub open spec fn entry_is(
    m: ModelInfo,
    id: Seq<char>,
    name: Seq<char>,
    model_type: ModelType,
    size_bytes: u64,
    url: Seq<char>,
) -> bool {
    m.id@ == id && m.name@ == name && m.model_type == model_type && m.size_bytes == size_bytes
        && m.download_url@ == url && m.status is Available
}

/// Some catalog entry carries this id.
pub open spec fn has_id(models: Seq<ModelInfo>, id: Seq<char>) -> bool {
    exists|i: int| 0 <= i < models.len() && #[trigger] models[i].id@ == id
}

/// The model catalog.
pub struct ModelRegistry {
    /// The catalog entries, in display order.
    pub models: Vec<ModelInfo>,
}

impl ModelRegistry {
    /// The built-in catalog: four Whisper transcription models, three
    /// CoreML encoders for them, and the Kokoro speech model with its
    /// voice styles.
    pub fn new() -> (r: ModelRegistry)
        ensures
            r.models@.len() == 9,
            entry_is(r.models@[0], "ggml-tiny.en.bin"@, "Whisper Tiny (English)"@, ModelType::Stt,
                39_000_000, "https://huggingface.co/ggerganov/whisper.cpp/resolve/main/ggml-tiny.en.bin"@),
            entry_is(r.models@[1], "ggml-base.en.bin"@, "Whisper Base (English)"@, ModelType::Stt,
                142_000_000, "https://huggingface.co/ggerganov/whisper.cpp/resolve/main/ggml-base.en.bin"@),
            entry_is(r.models@[2], "ggml-small.en.bin"@, "Whisper Small (English)"@,
                ModelType::Stt, 488_000_000, "https://huggingface.co/ggerganov/whisper.cpp/resolve/main/ggml-small.en.bin"@),
            entry_is(r.models@[3], "ggml-medium.en.bin"@, "Whisper Medium (English)"@,
                ModelType::Stt, 1_500_000_000, "https://huggingface.co/ggerganov/whisper.cpp/resolve/main/ggml-medium.en.bin"@),
            entry_is(r.models@[4], "ggml-tiny.en-encoder.mlmodelc"@, "CoreML Tiny Encoder"@,
                ModelType::Stt, 26_000_000, "https://huggingface.co/ggerganov/whisper.cpp/resolve/main/ggml-tiny.en-encoder.mlmodelc.zip"@),
            entry_is(r.models@[5], "ggml-base.en-encoder.mlmodelc"@, "CoreML Base Encoder"@,
                ModelType::Stt, 38_000_000, "https://huggingface.co/ggerganov/whisper.cpp/resolve/main/ggml-base.en-encoder.mlmodelc.zip"@),
            entry_is(r.models@[6], "ggml-small.en-encoder.mlmodelc"@, "CoreML Small Encoder"@,
                ModelType::Stt, 130_000_000, "https://huggingface.co/ggerganov/whisper.cpp/resolve/main/ggml-small.en-encoder.mlmodelc.zip"@),
            entry_is(r.models@[7], "kokoro-v1.0.onnx"@, "Kokoro 82M"@, ModelType::Tts, 330_000_000,
                "https://huggingface.co/onnx-community/Kokoro-82M-v1.0-ONNX/resolve/main/kokoro-v1.0.onnx"@),
            entry_is(r.models@[8], "voices-v1.0.bin"@, "Kokoro Voice Styles"@, ModelType::Tts,
                5_000_000, "https://huggingface.co/onnx-community/Kokoro-82M-v1.0-ONNX/resolve/main/voices-v1.0.bin"@),
    {
        let mut models: Vec<ModelInfo> = Vec::new();
        models.push(ModelInfo {
            id: "ggml-tiny.en.bin".to_owned(),
            name: "Whisper Tiny (English)".to_owned(),
            model_type: ModelType::Stt,
            size_bytes: 39_000_000,
            size_display: "39 MB".to_owned(),
            download_url: "https://huggingface.co/ggerganov/whisper.cpp/resolve/main/ggml-tiny.en.bin".to_owned(),
            status: ModelStatus::Available,
            description: "Fastest model, good for quick drafts. ~30x realtime on M1.".to_owned(),
        });
        models.push(ModelInfo {
            id: "ggml-base.en.bin".to_owned(),
            name: "Whisper Base (English)".to_owned(),
            model_type: ModelType::Stt,
            size_bytes: 142_000_000,
            size_display: "142 MB".to_owned(),
            download_url: "https://huggingface.co/ggerganov/whisper.cpp/resolve/main/ggml-base.en.bin".to_owned(),
            status: ModelStatus::Available,
            description: "Recommended default. Great balance of speed and accuracy. ~15x realtime on M1.".to_owned(),
        });
        models.push(ModelInfo {
            id: "ggml-small.en.bin".to_owned(),
            name: "Whisper Small (English)".to_owned(),
            model_type: ModelType::Stt,
            size_bytes: 488_000_000,
            size_display: "488 MB".to_owned(),
            download_url: "https://huggingface.co/ggerganov/whisper.cpp/resolve/main/ggml-small.en.bin".to_owned(),
            status: ModelStatus::Available,
            description: "Excellent accuracy for important content. ~6x realtime on M1.".to_owned(),
        });
        models.push(ModelInfo {
            id: "ggml-medium.en.bin".to_owned(),
            name: "Whisper Medium (English)".to_owned(),
            model_type: ModelType::Stt,
            size_bytes: 1_500_000_000,
            size_display: "1.5 GB".to_owned(),
            download_url: "https://huggingface.co/ggerganov/whisper.cpp/resolve/main/ggml-medium.en.bin".to_owned(),
            status: ModelStatus::Available,
            description: "Maximum accuracy. ~2x realtime on M1.".to_owned(),
        });
        models.push(ModelInfo {
            id: "ggml-tiny.en-encoder.mlmodelc".to_owned(),
            name: "CoreML Tiny Encoder".to_owned(),
            model_type: ModelType::Stt,
            size_bytes: 26_000_000,
            size_display: "26 MB".to_owned(),
            download_url: "https://huggingface.co/ggerganov/whisper.cpp/resolve/main/ggml-tiny.en-encoder.mlmodelc.zip".to_owned(),
            status: ModelStatus::Available,
            description: "CoreML encoder for Whisper Tiny. Enables Neural Engine acceleration on Apple Silicon.".to_owned(),
        });
        models.push(ModelInfo {
            id: "ggml-base.en-encoder.mlmodelc".to_owned(),
            name: "CoreML Base Encoder".to_owned(),
            model_type: ModelType::Stt,
            size_bytes: 38_000_000,
            size_display: "38 MB".to_owned(),
            download_url: "https://huggingface.co/ggerganov/whisper.cpp/resolve/main/ggml-base.en-encoder.mlmodelc.zip".to_owned(),
            status: ModelStatus::Available,
            description: "CoreML encoder for Whisper Base. Enables Neural Engine acceleration on Apple Silicon.".to_owned(),
        });
        models.push(ModelInfo {
            id: "ggml-small.en-encoder.mlmodelc".to_owned(),
            name: "CoreML Small Encoder".to_owned(),
            model_type: ModelType::Stt,
            size_bytes: 130_000_000,
            size_display: "130 MB".to_owned(),
            download_url: "https://huggingface.co/ggerganov/whisper.cpp/resolve/main/ggml-small.en-encoder.mlmodelc.zip".to_owned(),
            status: ModelStatus::Available,
            description: "CoreML encoder for Whisper Small. Enables Neural Engine acceleration on Apple Silicon.".to_owned(),
        });
        models.push(ModelInfo {
            id: "kokoro-v1.0.onnx".to_owned(),
            name: "Kokoro 82M".to_owned(),
            model_type: ModelType::Tts,
            size_bytes: 330_000_000,
            size_display: "330 MB".to_owned(),
            download_url: "https://huggingface.co/onnx-community/Kokoro-82M-v1.0-ONNX/resolve/main/kokoro-v1.0.onnx".to_owned(),
            status: ModelStatus::Available,
            description: "High-quality TTS with 54 voices. Sub-0.3s generation per sentence.".to_owned(),
        });
        models.push(ModelInfo {
            id: "voices-v1.0.bin".to_owned(),
            name: "Kokoro Voice Styles".to_owned(),
            model_type: ModelType::Tts,
            size_bytes: 5_000_000,
            size_display: "5 MB".to_owned(),
            download_url: "https://huggingface.co/onnx-community/Kokoro-82M-v1.0-ONNX/resolve/main/voices-v1.0.bin".to_owned(),
            status: ModelStatus::Available,
            description: "Voice style vectors for Kokoro TTS.".to_owned(),
        });
        ModelRegistry { models }
    }

    /// A copy of every catalog entry, in order.
    pub fn get_all_models(&self) -> (r: Vec<ModelInfo>)
        ensures
            r@ == self.models@,
    {
        let mut out: Vec<ModelInfo> = Vec::new();
        let mut i: usize = 0;
        while i < self.models.len()
            invariant
                0 <= i <= self.models@.len(),
                out@ =~= self.models@.take(i as int),
            decreases self.models@.len() - i,
        {
            out.push(self.models[i].clone());
            proof {
                assert(out@ =~= self.models@.take(i + 1));
            }
            i = i + 1;
        }
        proof {
            assert(self.models@.take(self.models@.len() as int) =~= self.models@);
        }
        out
    }

    /// The first catalog entry with this id, if any.
    pub fn get_model(&self, id: &str) -> (r: Option<ModelInfo>)
        ensures
            (r is Some) == has_id(self.models@, id@),
            r matches Some(m) ==> exists|i: int|
                0 <= i < self.models@.len() && m == self.models@[i]
                    && #[trigger] self.models@[i].id@ == id@,
    {
        let mut i: usize = 0;
        while i < self.models.len()
            invariant
                0 <= i <= self.models@.len(),
                forall|j: int| 0 <= j < i ==> #[trigger] self.models@[j].id@ != id@,
            decreases self.models@.len() - i,
        {
            if str_eq_str(self.models[i].id.as_str(), id) {
                return Some(self.models[i].clone());
            }
            i = i + 1;
        }
        None
    }

    /// Every speech-to-text entry, in order.
    pub fn get_stt_models(&self) -> (r: Vec<ModelInfo>)
        ensures
            r@ == self.models@.filter(|m: ModelInfo| m.model_type is Stt),
    {
        let mut out: Vec<ModelInfo> = Vec::new();
        let mut i: usize = 0;
        while i < self.models.len()
            invariant
                0 <= i <= self.models@.len(),
                out@ =~= self.models@.take(i as int).filter(|m: ModelInfo| m.model_type is Stt),
            decreases self.models@.len() - i,
        {
            let keep = match self.models[i].model_type {
                ModelType::Stt => true,
                ModelType::Tts => false,
            };
            if keep {
                out.push(self.models[i].clone());
            }
            proof {
                lemma_filter_take_step(self.models@, i as int, |m: ModelInfo| m.model_type is Stt);
            }
            i = i + 1;
        }
        proof {
            assert(self.models@.take(self.models@.len() as int) =~= self.models@);
        }
        out
    }

    /// Every text-to-speech entry, in order.
    pub fn get_tts_models(&self) -> (r: Vec<ModelInfo>)
        ensures
            r@ == self.models@.filter(|m: ModelInfo| m.model_type is Tts),
    {
        let mut out: Vec<ModelInfo> = Vec::new();
        let mut i: usize = 0;
        while i < self.models.len()
            invariant
                0 <= i <= self.models@.len(),
                out@ =~= self.models@.take(i as int).filter(|m: ModelInfo| m.model_type is Tts),
            decreases self.models@.len() - i,
        {
            let keep = match self.models[i].model_type {
                ModelType::Tts => true,
                ModelType::Stt => false,
            };
            if keep {
                out.push(self.models[i].clone());
            }
            proof {
                lemma_filter_take_step(self.models@, i as int, |m: ModelInfo| m.model_type is Tts);
            }
            i = i + 1;
        }
        proof {
            assert(self.models@.take(self.models@.len() as int) =~= self.models@);
        }
        out
    }

    /// Every CoreML encoder entry: those whose id ends in `.mlmodelc`.
    pub fn get_coreml_models(&self) -> (r: Vec<ModelInfo>)
        ensures
            r@ == self.models@.filter(|m: ModelInfo| seq_ends_with(m.id@, ".mlmodelc"@)),
    {
        let mut out: Vec<ModelInfo> = Vec::new();
        let mut i: usize = 0;
        while i < self.models.len()
            invariant
                0 <= i <= self.models@.len(),
                out@ =~= self.models@.take(i as int).filter(|m: ModelInfo| seq_ends_with(m.id@,
                    ".mlmodelc"@)),
            decreases self.models@.len() - i,
        {
            if str_ends_with(self.models[i].id.as_str(), ".mlmodelc") {
                out.push(self.models[i].clone());
            }
            proof {
                lemma_filter_take_step(self.models@, i as int, |m: ModelInfo| seq_ends_with(m.id@,
                    ".mlmodelc"@));
            }
            i = i + 1;
        }
        proof {
            assert(self.models@.take(self.models@.len() as int) =~= self.models@);
        }
        out
    }

    /// Every base Whisper entry: speech-to-text models whose id ends
    /// in `.bin`.
    pub fn get_whisper_models(&self) -> (r: Vec<ModelInfo>)
        ensures
            r@ == self.models@.filter(|m: ModelInfo| m.model_type is Stt && seq_ends_with(m.id@,
                ".bin"@)),
    {
        let mut out: Vec<ModelInfo> = Vec::new();
        let mut i: usize = 0;
        while i < self.models.len()
            invariant
                0 <= i <= self.models@.len(),
                out@ =~= self.models@.take(i as int).filter(|m: ModelInfo| m.model_type is Stt
                    && seq_ends_with(m.id@, ".bin"@)),
            decreases self.models@.len() - i,
        {
            let is_stt = match self.models[i].model_type {
                ModelType::Stt => true,
                ModelType::Tts => false,
            };
            if is_stt && str_ends_with(self.models[i].id.as_str(), ".bin") {
                out.push(self.models[i].clone());
            }
            proof {
                lemma_filter_take_step(self.models@, i as int, |m: ModelInfo| m.model_type is Stt
                    && seq_ends_with(m.id@, ".bin"@));
            }
            i = i + 1;
        }
        proof {
            assert(self.models@.take(self.models@.len() as int) =~= self.models@);
        }
        out
    }
}

/// The status an entry earns from what is on disk.
pub open spec fn spec_status_of(present: bool) -> ModelStatus {
    if present {
        ModelStatus::Downloaded
    } else {
        ModelStatus::Available
    }
}

/// Mark each catalog entry with what is on disk: the caller reports,
/// entry by entry, whether the model's file exists, and each entry's
/// status becomes `Downloaded` or `Available` accordingly, everything
/// else unchanged.
pub fn apply_presence(models: Vec<ModelInfo>, present: &Vec<bool>) -> (r: Vec<ModelInfo>)
    requires
        models@.len() == present@.len(),
    ensures
        r@.len() == models@.len(),
        forall|i: int|
            0 <= i < r@.len() ==> #[trigger] r@[i] == (ModelInfo {
                status: spec_status_of(present@[i]),
                ..models@[i]
            }),
{
    let mut out: Vec<ModelInfo> = Vec::new();
    let mut i: usize = 0;
    let n = models.len();
    while i < n
        invariant
            0 <= i <= n,
            n == models@.len() && n == present@.len(),
            out@.len() == i,
            forall|j: int|
                0 <= j < i ==> #[trigger] out@[j] == (ModelInfo {
                    status: spec_status_of(present@[j]),
                    ..models@[j]
                }),
        decreases n - i,
    {
        let mut m = models[i].clone();
        m.status = if present[i] {
            ModelStatus::Downloaded
        } else {
            ModelStatus::Available
        };
        out.push(m);
        i = i + 1;
    }
    out
}

impl Default for ModelRegistry {
    /// The default registry is the built-in catalog.
    fn default() -> (r: Self)
        ensures
            r.models@.len() == 9,
    {
        Self::new()
    }
}

/// Filtering one more element of a prefix appends it exactly when the
/// predicate holds of it.
proof fn lemma_filter_take_step(s: Seq<ModelInfo>, i: int, p: spec_fn(ModelInfo) -> bool)
    requires
        0 <= i < s.len(),
    ensures
        s.take(i + 1).filter(p) == if p(s[i]) {
            s.take(i).filter(p).push(s[i])
        } else {
            s.take(i).filter(p)
        },
{
    reveal(Seq::filter);
    assert(s.take(i + 1).drop_last() =~= s.take(i));
    assert(s.take(i + 1).last() == s[i]);
}

} // verus!
