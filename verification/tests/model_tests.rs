use voicetypr::commands::model::{
    collect_cloud_models, convert_parakeet_model, convert_whisper_model, determine_model_engine,
    download_outcome, identify_download_target, sort_models, DownloadOutcome, DownloadTarget,
    ModelEngine, ParakeetModelStatus, WhisperModelInfo,
};
use voicetypr::parakeet::messages::{default_attention, default_local_context, default_precision};
use voicetypr::parakeet::models::{all_models, get_available_models, is_apple_silicon};

fn whisper(size: u64) -> WhisperModelInfo {
    WhisperModelInfo {
        display_name: "W".to_string(),
        size,
        url: "u".to_string(),
        sha256: "s".to_string(),
        downloaded: true,
        speed_score: 5,
        accuracy_score: 6,
        recommended: false,
    }
}

#[test]
fn model_list_is_local_first_by_size() {
    let mut models = vec![
        convert_whisper_model("large".to_string(), whisper(3000)),
        convert_whisper_model("tiny".to_string(), whisper(75)),
    ];
    models.extend(collect_cloud_models(false));
    models.push(convert_parakeet_model(ParakeetModelStatus {
        name: "p".to_string(),
        display_name: "P".to_string(),
        size: 500,
        url: String::new(),
        sha256: String::new(),
        downloaded: false,
        speed_score: 9,
        accuracy_score: 9,
        recommended: true,
    }));
    models.push(convert_whisper_model("tiny2".to_string(), whisper(75)));
    let sorted = sort_models(&models);
    let names: Vec<&str> = sorted.iter().map(|m| m.name.as_str()).collect();
    assert_eq!(names, vec!["tiny", "tiny2", "p", "large", "soniox"]);
    assert_eq!(sorted[4].kind, "cloud");
    assert!(sorted[4].requires_setup);
    assert_eq!(sorted[2].engine, "parakeet");
    assert_eq!(sorted[0].engine, "whisper");
    assert_eq!(ModelEngine::Parakeet.as_str(), "parakeet");
}

#[test]
fn download_decisions() {
    assert_eq!(determine_model_engine("x", false, true), Ok(ModelEngine::Parakeet));
    assert_eq!(determine_model_engine("x", false, false), Err("Invalid model name: x".to_string()));
    assert_eq!(
        identify_download_target("base", Some(142), Some(1)),
        Ok(DownloadTarget { engine: ModelEngine::Whisper, size_bytes: 142 })
    );
    assert_eq!(
        identify_download_target("p", None, Some(500)),
        Ok(DownloadTarget { engine: ModelEngine::Parakeet, size_bytes: 500 })
    );
    assert_eq!(
        download_outcome("p", ModelEngine::Parakeet, Ok(()), false),
        DownloadOutcome::Unconfirmed("Parakeet sidecar did not confirm 'p' as downloaded. Please try again.".to_string())
    );
    assert_eq!(download_outcome("p", ModelEngine::Parakeet, Ok(()), true), DownloadOutcome::Completed);
    assert_eq!(
        download_outcome("b", ModelEngine::Whisper, Err("Download cancelled by user".to_string()), false),
        DownloadOutcome::Cancelled("Download cancelled by user".to_string())
    );
    assert_eq!(
        download_outcome("b", ModelEngine::Whisper, Err("disk full".to_string()), false),
        DownloadOutcome::Failed("disk full".to_string())
    );
}

#[test]
fn parakeet_catalog() {
    assert_eq!(get_available_models("x86_64").len(), 0);
    let models = get_available_models("aarch64");
    assert_eq!(models.len(), 2);
    assert_eq!(models[0].id, "parakeet-tdt-0.6b-v3");
    assert_eq!(all_models()[1].languages, vec!["en"]);
    assert!(is_apple_silicon("aarch64"));
    assert_eq!(default_precision(), "bf16");
    assert_eq!(default_attention(), "full");
    assert_eq!(default_local_context(), 256);
}
