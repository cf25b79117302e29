use std::path::PathBuf;

use ow2_victory_counter::config::{
    default_class_map, default_cooldown_seconds, default_debug_save_dir,
    default_required_consecutive, default_screenshot_save_dir, Config, ConfigError,
};

#[test]
fn test_default_config() {
    let config = Config::default_with_required(
        "OBS Source".to_string(),
        PathBuf::from("models/model.onnx"),
    );

    assert_eq!(config.obs.host, "localhost");
    assert_eq!(config.obs.port, 4455);
    assert_eq!(config.obs.source_name, "OBS Source");
    assert_eq!(config.state.cooldown_seconds, 10);
    assert_eq!(config.state.required_consecutive, 3);
    assert_eq!(config.server.port, 3000);
}

#[test]
fn test_crop_rect_tuple() {
    let config = Config::default_with_required(
        "OBS Source".to_string(),
        PathBuf::from("models/model.onnx"),
    );

    let (x, y, w, h) = config.crop_rect_tuple();
    assert_eq!((x, y, w, h), (0, 0, 1920, 1080));
}

#[test]
fn default_config_other_fields() {
    let config = Config::default_with_required(
        "OBS Source".to_string(),
        PathBuf::from("models/model.onnx"),
    );
    assert_eq!(config.obs.password, None);
    assert_eq!(config.model.model_path, PathBuf::from("models/model.onnx"));
    assert_eq!(config.model.label_map_path, PathBuf::from("models/model.label_map.json"));
    assert_eq!(config.model.class_map.len(), 0);
    assert_eq!(config.preprocessing.resize_width, 512);
    assert_eq!(config.preprocessing.resize_height, 283);
    assert_eq!(config.server.host, "127.0.0.1");
    assert_eq!(config.detection.interval_ms, 1000);
    assert!(!config.screenshot.enabled);
    assert_eq!(config.screenshot.save_dir, PathBuf::from("screenshots"));
    assert!(!config.debug.enabled);
    assert_eq!(config.debug.save_dir, PathBuf::from("debug"));
    assert!(config.debug.save_cropped);
    assert!(!config.debug.save_preprocessed);
    assert!(config.debug.save_results);
}

#[test]
fn default_helpers_give_documented_values() {
    assert_eq!(default_cooldown_seconds(), 10);
    assert_eq!(default_required_consecutive(), 3);
    assert_eq!(default_screenshot_save_dir(), PathBuf::from("screenshots"));
    assert_eq!(default_debug_save_dir(), PathBuf::from("debug"));
    assert_eq!(default_class_map().len(), 0);
}

#[test]
fn config_error_messages() {
    let e = ConfigError::FileRead("a.toml".to_string(), "missing".to_string());
    assert_eq!(e.message(), "Failed to read config file 'a.toml': missing");
    let e = ConfigError::Parse("a.toml".to_string(), "bad key".to_string());
    assert_eq!(e.message(), "Failed to parse config file 'a.toml': bad key");
    let e = ConfigError::Serialize("oops".to_string());
    assert_eq!(e.message(), "Failed to serialize config: oops");
}
