//! The Parakeet models the sidecar can run.
use vstd::prelude::*;

verus! {

/// One file of a model.
#[derive(Debug, Clone, Copy)]
pub struct ParakeetModelFile {
    pub filename: &'static str,
}

/// A Parakeet model.
#[derive(Debug, Clone)]
pub struct ParakeetModelDefinition {
    pub id: &'static str,
    pub display_name: &'static str,
    pub repo_id: &'static str,
    pub description: &'static str,
    pub languages: Vec<&'static str>,
    pub recommended: bool,
    pub speed_score: u8,
    pub accuracy_score: u8,
    pub files: Vec<ParakeetModelFile>,
    pub estimated_size: u64,
    /// The model has restrictions beyond the Apple Silicon that every Parakeet
    /// model needs.
    pub apple_silicon_only: bool,
}

/// The files of a FluidAudio CoreML model.
fn model_files() -> (r: Vec<ParakeetModelFile>)
    ensures
        r@.len() == 5,
{
    vec![
        ParakeetModelFile { filename: "Preprocessor.mlmodelc" },
        ParakeetModelFile { filename: "Encoder.mlmodelc" },
        ParakeetModelFile { filename: "Decoder.mlmodelc" },
        ParakeetModelFile { filename: "JointDecision.mlmodelc" },
        ParakeetModelFile { filename: "parakeet_vocab.json" },
    ]
}

/// All Parakeet models: V3 (multilingual) and V2 (English).
pub fn all_models() -> (r: Vec<ParakeetModelDefinition>)
    ensures
        r@.len() == 2,
        r@[0].id@ == "parakeet-tdt-0.6b-v3"@,
        r@[0].recommended && r@[0].speed_score == 9 && r@[0].accuracy_score == 9,
        r@[0].estimated_size == 500_000_000 && !r@[0].apple_silicon_only,
        r@[0].languages@.len() == 25 && r@[0].files@.len() == 5,
        r@[1].id@ == "parakeet-tdt-0.6b-v2"@,
        r@[1].recommended && r@[1].speed_score == 10 && r@[1].accuracy_score == 8,
        r@[1].estimated_size == 480_000_000 && r@[1].apple_silicon_only,
        r@[1].languages@.len() == 1 && r@[1].files@.len() == 5,
{
    let v3 = ParakeetModelDefinition {
        id: "parakeet-tdt-0.6b-v3",
        display_name: "Parakeet V3",
        repo_id: "FluidInference/parakeet-tdt-0.6b-v3-coreml",
        description: "Native Swift transcription using Apple Neural Engine",
        languages: vec![
            "en", "es", "fr", "de", "bg", "hr", "cs", "da", "nl", "et", "fi", "el", "hu", "it",
            "lv", "lt", "mt", "pl", "pt", "ro", "sk", "sl", "sv", "ru", "uk",
        ],
        recommended: true,
        speed_score: 9,
        accuracy_score: 9,
        files: model_files(),
        estimated_size: 500_000_000,
        apple_silicon_only: false,
    };
    let v2 = ParakeetModelDefinition {
        id: "parakeet-tdt-0.6b-v2",
        display_name: "Parakeet V2 (English)",
        repo_id: "FluidInference/parakeet-tdt-0.6b-v2-coreml",
        description: "Native Swift transcription optimized for English",
        languages: vec!["en"],
        recommended: true,
        speed_score: 10,
        accuracy_score: 8,
        files: model_files(),
        estimated_size: 480_000_000,
        apple_silicon_only: true,
    };
    vec![v3, v2]
}

/// Whether the architecture is Apple Silicon (`aarch64`).
pub fn is_apple_silicon(arch: &str) -> (b: bool)
    ensures
        b == (arch@ == "aarch64"@),
{
    crate::text::str_eq(arch, "aarch64")
}

/// The models available on an architecture: all of them on Apple Silicon,
/// none elsewhere (the sidecar needs the Apple Neural Engine).
pub fn get_available_models(arch: &str) -> (r: Vec<ParakeetModelDefinition>)
    ensures
        arch@ == "aarch64"@ ==> r@.len() == 2 && r@[0].id@ == "parakeet-tdt-0.6b-v3"@ && r@[1].id@
            == "parakeet-tdt-0.6b-v2"@,
        arch@ != "aarch64"@ ==> r@.len() == 0,
{
    if is_apple_silicon(arch) {
        all_models()
    } else {
        Vec::new()
    }
}

} // verus!
