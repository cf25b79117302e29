use std::collections::HashMap;

use ow2_victory_counter::predictor::{
    class_to_outcome, label_for_index, outcome_for_lowered, ClassMap, PredictionError,
};

#[test]
fn test_class_to_outcome() {
    let empty_map = ClassMap::new();
    assert_eq!(class_to_outcome("victory_text", &empty_map), "victory");
    assert_eq!(class_to_outcome("victory_progressbar", &empty_map), "victory");
    assert_eq!(class_to_outcome("defeat_text", &empty_map), "defeat");
    assert_eq!(class_to_outcome("defeat_progressbar", &empty_map), "defeat");
    assert_eq!(class_to_outcome("none", &empty_map), "none");
    assert_eq!(class_to_outcome("unknown", &empty_map), "none");
}

#[test]
fn test_class_to_outcome_with_config_map() {
    let mut map = ClassMap::new();
    map.insert("victory_progressbar".to_string(), "v".to_string());
    map.insert("defeat_progressbar".to_string(), "d".to_string());
    map.insert("none".to_string(), "n".to_string());

    assert_eq!(class_to_outcome("victory_progressbar", &map), "v");
    assert_eq!(class_to_outcome("defeat_progressbar", &map), "d");
    assert_eq!(class_to_outcome("victory_text", &map), "victory");
    assert_eq!(class_to_outcome("unknown", &map), "none");
}

#[test]
fn fallback_lowercases_the_class_name() {
    let empty_map = ClassMap::new();
    assert_eq!(class_to_outcome("VICTORY_Text", &empty_map), "victory");
    assert_eq!(class_to_outcome("Big_Defeat", &empty_map), "defeat");
}

#[test]
fn lowered_fallback_prefers_victory() {
    assert_eq!(outcome_for_lowered("victory_or_defeat"), "victory");
    assert_eq!(outcome_for_lowered("defeat_banner"), "defeat");
    assert_eq!(outcome_for_lowered("draw"), "none");
    assert_eq!(outcome_for_lowered(""), "none");
}

#[test]
fn later_class_map_entry_wins() {
    let mut map = ClassMap::new();
    map.insert("a".to_string(), "victory".to_string());
    map.insert("a".to_string(), "defeat".to_string());
    assert_eq!(map.get("a"), Some("defeat".to_string()));
    assert_eq!(map.get("b"), None);
    assert_eq!(class_to_outcome("a", &map), "defeat");
}

#[test]
fn index_labels_fall_back_to_unknown() {
    let mut labels = HashMap::new();
    labels.insert(0usize, "victory_text".to_string());
    labels.insert(2usize, "none".to_string());
    assert_eq!(label_for_index(&labels, 0), "victory_text");
    assert_eq!(label_for_index(&labels, 2), "none");
    assert_eq!(label_for_index(&labels, 1), "unknown_1");
    assert_eq!(label_for_index(&labels, 17), "unknown_17");
}

#[test]
fn prediction_error_messages() {
    assert_eq!(PredictionError::ModelLoad("m".to_string()).message(), "Model load error: m");
    assert_eq!(
        PredictionError::LabelMapLoad("l".to_string()).message(),
        "Label map load error: l"
    );
    assert_eq!(PredictionError::Inference("i".to_string()).message(), "Inference error: i");
}
