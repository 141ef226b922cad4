use voicetypr::recognition::model_selection::{
    auto_selection, pick_best_model, soniox_availability, AutoSelection, RankedModel,
};
use voicetypr::recognition::RecognitionAvailabilitySnapshot;

#[test]
fn any_available_is_true_when_remote_is_active() {
    let snapshot = RecognitionAvailabilitySnapshot {
        whisper_available: false,
        parakeet_available: false,
        soniox_selected: false,
        soniox_ready: false,
        remote_available: true,
    };

    assert!(snapshot.any_available());
}

#[test]
fn any_available_is_false_when_nothing_is_ready() {
    let snapshot = RecognitionAvailabilitySnapshot {
        whisper_available: false,
        parakeet_available: false,
        soniox_selected: false,
        soniox_ready: false,
        remote_available: false,
    };

    assert!(!snapshot.any_available());
}

fn model(name: &str, downloaded: bool, recommended: bool, accuracy: u8, size: u64) -> RankedModel {
    RankedModel {
        name: name.to_string(),
        downloaded,
        recommended,
        accuracy_score: accuracy,
        size,
    }
}

#[test]
fn best_model_ranking() {
    let models = vec![
        model("a", true, false, 9, 10),
        model("b", true, true, 7, 50),
        model("c", false, true, 10, 1),
        model("d", true, true, 7, 40),
        model("e", true, true, 7, 40),
    ];
    assert_eq!(pick_best_model(&models), Some("d".to_string()));
    assert_eq!(pick_best_model(&vec![model("x", false, true, 1, 1)]), None);
}

#[test]
fn automatic_model_selection() {
    let snap = RecognitionAvailabilitySnapshot {
        whisper_available: true,
        parakeet_available: true,
        soniox_selected: true,
        soniox_ready: true,
        remote_available: true,
    };
    assert_eq!(auto_selection("base", &snap, None, None), AutoSelection::Nothing);
    assert_eq!(
        auto_selection("", &snap, Some("p".to_string()), Some("w".to_string())),
        AutoSelection::Select { engine: "parakeet".to_string(), model: "p".to_string() }
    );
    assert_eq!(
        auto_selection("", &snap, None, Some("w".to_string())),
        AutoSelection::Select { engine: "whisper".to_string(), model: "w".to_string() }
    );
    assert_eq!(
        auto_selection("", &snap, None, None),
        AutoSelection::Select { engine: "soniox".to_string(), model: "soniox".to_string() }
    );
    let remote_only = RecognitionAvailabilitySnapshot {
        whisper_available: false,
        parakeet_available: false,
        soniox_selected: false,
        soniox_ready: false,
        remote_available: true,
    };
    assert_eq!(auto_selection("", &remote_only, None, None), AutoSelection::MarkOnboarded);
    assert_eq!(soniox_availability(true, Some("soniox"), true), (true, true));
    assert_eq!(soniox_availability(true, Some("whisper"), true), (false, false));
    assert_eq!(soniox_availability(false, Some("soniox"), true), (false, false));
}
