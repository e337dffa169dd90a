//! Hardware detection: what machine this is and which models it can
//! carry comfortably.
//!
//! The machine's memory size, processor count and processor brand come
//! from the `sysinfo` crate through the trusted accessors below; what
//! those values mean — the chip classification and the recommended
//! tier — is decided and proved here.

use vstd::prelude::*;

use crate::strutil::seq_contains;
use crate::strutil::str_contains;

verus! {

/// The broad processor family.
#[derive(Clone, Copy, PartialEq, Eq, Structural, Debug)]
pub enum ChipType {
    /// An Apple-designed processor.
    AppleSilicon,
    /// An Intel processor.
    Intel,
    /// Anything else, or nothing detected.
    Unknown,
}

/// How capable the machine is, and so which models suit it.
#[derive(Clone, Copy, PartialEq, Eq, Structural, Debug)]
pub enum Tier {
    /// Intel, or Apple Silicon with little memory.
    Lite,
    /// Apple Silicon with 16 GB.
    Standard,
    /// Apple Silicon with 32 GB or more.
    Power,
}

/// The detected hardware and the recommendation derived from it.
pub struct HardwareProfile {
    /// The processor family.
    pub chip: ChipType,
    /// The processor's display name.
    pub chip_name: String,
    /// Memory size in whole gigabytes.
    pub ram_gb: u64,
    /// Number of logical processors.
    pub cpu_cores: usize,
    /// Whether a neural engine is present.
    pub has_neural_engine: bool,
    /// Whether the Metal graphics interface is available.
    pub has_metal: bool,
    /// The recommended model tier.
    pub recommended_tier: Tier,
}

impl Clone for HardwareProfile {
    fn clone(&self) -> (r: Self)
        ensures
            r == *self,
    {
        HardwareProfile {
            chip: self.chip,
            chip_name: self.chip_name.clone(),
            ram_gb: self.ram_gb,
            cpu_cores: self.cpu_cores,
            has_neural_engine: self.has_neural_engine,
            has_metal: self.has_metal,
            recommended_tier: self.recommended_tier,
        }
    }
}

#[verifier::external_type_specification]
#[verifier::external_body]
pub struct ExSystem(sysinfo::System);

/// Relies on `sysinfo::System::new_all`: a snapshot of the machine
/// with everything loaded.  What it holds depends on the machine, so
/// nothing is promised of it.
#[verifier::external_body]
fn system_snapshot() -> sysinfo::System {
    sysinfo::System::new_all()
}

/// Relies on `sysinfo::System::total_memory`: the RAM size in bytes.
/// The value depends on the machine, so nothing is promised of it.
#[verifier::external_body]
fn system_total_memory(sys: &sysinfo::System) -> u64 {
    sys.total_memory()
}

/// Relies on `sysinfo::System::cpus`: the number of logical
/// processors the snapshot lists.  The value depends on the machine,
/// so nothing is promised of it.
#[verifier::external_body]
fn system_cpu_count(sys: &sysinfo::System) -> usize {
    sys.cpus().len()
}

/// Relies on `sysinfo::System::cpus` and `sysinfo::Cpu::brand`: the
/// brand string of the first listed processor, if any.  The value
/// depends on the machine, so nothing is promised of it.
#[verifier::external_body]
fn system_cpu_brand(sys: &sysinfo::System) -> Option<String> {
    match sys.cpus().first() {
        Some(cpu) => Some(cpu.brand().to_owned()),
        None => None,
    }
}

/// The display name of an Apple-designed chip, read off its brand
/// string: the generation, refined by Max, Pro or Ultra.
pub open spec fn spec_apple_chip_name(b: Seq<char>) -> Seq<char> {
    if seq_contains(b, "M1"@) {
        if seq_contains(b, "Max"@) {
            "Apple M1 Max"@
        } else if seq_contains(b, "Pro"@) {
            "Apple M1 Pro"@
        } else if seq_contains(b, "Ultra"@) {
            "Apple M1 Ultra"@
        } else {
            "Apple M1"@
        }
    } else if seq_contains(b, "M2"@) {
        if seq_contains(b, "Max"@) {
            "Apple M2 Max"@
        } else if seq_contains(b, "Pro"@) {
            "Apple M2 Pro"@
        } else if seq_contains(b, "Ultra"@) {
            "Apple M2 Ultra"@
        } else {
            "Apple M2"@
        }
    } else if seq_contains(b, "M3"@) {
        if seq_contains(b, "Max"@) {
            "Apple M3 Max"@
        } else if seq_contains(b, "Pro"@) {
            "Apple M3 Pro"@
        } else if seq_contains(b, "Ultra"@) {
            "Apple M3 Ultra"@
        } else {
            "Apple M3"@
        }
    } else if seq_contains(b, "M4"@) {
        if seq_contains(b, "Max"@) {
            "Apple M4 Max"@
        } else if seq_contains(b, "Pro"@) {
            "Apple M4 Pro"@
        } else {
            "Apple M4"@
        }
    } else {
        b
    }
}

/// Classify a processor brand string: the family, its display name,
/// and whether a neural engine and Metal are present.
///
/// A brand naming Apple is Apple Silicon with both; one naming Intel
/// has Metal only and keeps the brand as its name; anything else is
/// unknown.
pub fn classify_chip(brand: &str) -> (r: (ChipType, String, bool, bool))
    ensures
        seq_contains(brand@, "Apple"@) ==> r.0 is AppleSilicon && r.1@ == spec_apple_chip_name(
            brand@,
        ) && r.2 && r.3,
        !seq_contains(brand@, "Apple"@) && seq_contains(brand@, "Intel"@) ==> r.0 is Intel && r.1@
            == brand@ && !r.2 && r.3,
        !seq_contains(brand@, "Apple"@) && !seq_contains(brand@, "Intel"@) ==> r.0 is Unknown
            && r.1@ == "Unknown"@ && !r.2 && !r.3,
{
    if str_contains(brand, "Apple") {
        let name: String = if str_contains(brand, "M1") {
            if str_contains(brand, "Max") {
                "Apple M1 Max".to_owned()
            } else if str_contains(brand, "Pro") {
                "Apple M1 Pro".to_owned()
            } else if str_contains(brand, "Ultra") {
                "Apple M1 Ultra".to_owned()
            } else {
                "Apple M1".to_owned()
            }
        } else if str_contains(brand, "M2") {
            if str_contains(brand, "Max") {
                "Apple M2 Max".to_owned()
            } else if str_contains(brand, "Pro") {
                "Apple M2 Pro".to_owned()
            } else if str_contains(brand, "Ultra") {
                "Apple M2 Ultra".to_owned()
            } else {
                "Apple M2".to_owned()
            }
        } else if str_contains(brand, "M3") {
            if str_contains(brand, "Max") {
                "Apple M3 Max".to_owned()
            } else if str_contains(brand, "Pro") {
                "Apple M3 Pro".to_owned()
            } else if str_contains(brand, "Ultra") {
                "Apple M3 Ultra".to_owned()
            } else {
                "Apple M3".to_owned()
            }
        } else if str_contains(brand, "M4") {
            if str_contains(brand, "Max") {
                "Apple M4 Max".to_owned()
            } else if str_contains(brand, "Pro") {
                "Apple M4 Pro".to_owned()
            } else {
                "Apple M4".to_owned()
            }
        } else {
            brand.to_owned()
        };
        (ChipType::AppleSilicon, name, true, true)
    } else if str_contains(brand, "Intel") {
        (ChipType::Intel, brand.to_owned(), false, true)
    } else {
        (ChipType::Unknown, "Unknown".to_owned(), false, false)
    }
}

/// The tier a chip and memory size earn.
pub open spec fn spec_tier(chip: ChipType, ram_gb: u64) -> Tier {
    match chip {
        ChipType::AppleSilicon => if ram_gb >= 32 {
            Tier::Power
        } else if ram_gb >= 16 {
            Tier::Standard
        } else {
            Tier::Lite
        },
        ChipType::Intel => Tier::Lite,
        ChipType::Unknown => Tier::Lite,
    }
}

/// Detects the machine's hardware.
pub struct HardwareDetector;

impl HardwareDetector {
    /// The recommended tier: Apple Silicon earns Power at 32 GB and
    /// Standard at 16 GB; everything else is Lite.
    pub fn determine_tier(chip: &ChipType, ram_gb: u64) -> (r: Tier)
        ensures
            r == spec_tier(*chip, ram_gb),
    {
        match chip {
            ChipType::AppleSilicon => {
                if ram_gb >= 32 {
                    Tier::Power
                } else if ram_gb >= 16 {
                    Tier::Standard
                } else {
                    Tier::Lite
                }
            },
            ChipType::Intel => Tier::Lite,
            ChipType::Unknown => Tier::Lite,
        }
    }

    /// Take a snapshot of the machine and classify it.
    ///
    /// The memory size, processor count and brand come from the
    /// system, so their values cannot be promised; what is promised is
    /// the profile's consistency: the tier follows the chip and the
    /// memory size, a neural engine is reported exactly for Apple
    /// Silicon, and Metal for every recognised chip.
    pub fn detect() -> (r: HardwareProfile)
        ensures
            r.recommended_tier == spec_tier(r.chip, r.ram_gb),
            r.has_neural_engine == (r.chip is AppleSilicon),
            r.has_metal == !(r.chip is Unknown),
    {
        let sys = system_snapshot();
        let ram_bytes = system_total_memory(&sys);
        let ram_gb: u64 = ram_bytes / (1024 * 1024 * 1024);
        let cpu_cores = system_cpu_count(&sys);
        let (chip, chip_name, has_neural_engine, has_metal) = match system_cpu_brand(&sys) {
            Some(brand) => classify_chip(brand.as_str()),
            None => (ChipType::Unknown, "Unknown".to_owned(), false, false),
        };
        let recommended_tier = Self::determine_tier(&chip, ram_gb);
        HardwareProfile {
            chip,
            chip_name,
            ram_gb,
            cpu_cores,
            has_neural_engine,
            has_metal,
            recommended_tier,
        }
    }
}

impl HardwareProfile {
    /// The transcription model this machine should use: the base model
    /// unless the tier is Lite, which gets the tiny one.
    pub fn recommended_stt_model(&self) -> (r: &'static str)
        ensures
            self.recommended_tier is Lite ==> r@ == "ggml-tiny.en.bin"@,
            !(self.recommended_tier is Lite) ==> r@ == "ggml-base.en.bin"@,
    {
        match self.recommended_tier {
            Tier::Power => "ggml-base.en.bin",
            Tier::Standard => "ggml-base.en.bin",
            Tier::Lite => "ggml-tiny.en.bin",
        }
    }

    /// The speech model this machine should use: every tier gets
    /// Kokoro.
    pub fn recommended_tts_model(&self) -> (r: &'static str)
        ensures
            r@ == "kokoro-v1.0.onnx"@,
    {
        match self.recommended_tier {
            Tier::Power => "kokoro-v1.0.onnx",
            Tier::Standard => "kokoro-v1.0.onnx",
            Tier::Lite => "kokoro-v1.0.onnx",
        }
    }
}

} // verus!
