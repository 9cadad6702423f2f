use image_classifier::config::{
    config_path, ArtifactsConfig, ConfigSource, DatasetConfig, ModelConfig, NormalizationConfig,
    NormalizationValue, TrainingConfig,
};
use image_classifier::error::ErrorKind;

pub fn digit_config() -> DatasetConfig {
    DatasetConfig {
        name: "mnist".to_string(),
        input_channels: 1,
        input_size: [28, 28],
        num_classes: 10,
        class_names: (0..10).map(|d| d.to_string()).collect(),
        model: ModelConfig {
            model_type: "lenet".to_string(),
            conv1_out: Some(32),
            conv2_out: Some(64),
            conv3_out: None,
            fc1_out: 128,
            fc2_out: None,
        },
        training: TrainingConfig {
            epochs: 5,
            batch_size: 64,
            learning_rate: 0.001f64.to_bits(),
            normalization: NormalizationConfig {
                mean: NormalizationValue::Single(0.1307f32.to_bits()),
                std: NormalizationValue::Single(0.3081f32.to_bits()),
            },
        },
        artifacts: ArtifactsConfig {
            dir: "artifacts/mnist".to_string(),
            model_file: "model.mpk".to_string(),
            model_bin: "model.bin".to_string(),
            wasm_bg: "model_bg.wasm".to_string(),
            wasm_js: "model.js".to_string(),
        },
    }
}

#[test]
fn valid_config_passes() {
    let c = digit_config();
    assert!(c.validate().is_ok());
}

#[test]
fn class_names_must_match_class_count() {
    let mut c = digit_config();
    c.class_names.pop();
    let e = c.validate().unwrap_err();
    assert_eq!(e.kind, ErrorKind::Config);
    assert_eq!(e.message, "class_names must hold exactly num_classes names: mnist");
}

#[test]
fn normalization_must_match_channels() {
    let mut c = digit_config();
    c.input_channels = 3;
    let e = c.validate().unwrap_err();
    assert_eq!(e.kind, ErrorKind::Config);
    assert_eq!(e.message, "normalization must hold one value per input channel: mnist");
    c.training.normalization.mean = NormalizationValue::Triple([0, 0, 0]);
    assert!(c.validate().is_err());
    c.training.normalization.std = NormalizationValue::Triple([1, 1, 1]);
    assert!(c.validate().is_ok());
}

#[test]
fn two_channels_are_never_valid() {
    let mut c = digit_config();
    c.input_channels = 2;
    assert!(c.validate().is_err());
}

#[test]
fn class_names_are_checked_before_normalization() {
    let mut c = digit_config();
    c.input_channels = 3;
    c.num_classes = 11;
    let e = c.validate().unwrap_err();
    assert_eq!(e.message, "class_names must hold exactly num_classes names: mnist");
}

#[test]
fn construction_fails_on_invalid_parts() {
    let c = digit_config();
    let r = DatasetConfig::new(
        c.name.clone(),
        c.input_channels,
        c.input_size,
        3,
        c.class_names.clone(),
        c.model.clone(),
        c.training,
        c.artifacts.clone(),
    );
    assert_eq!(r.unwrap_err().kind, ErrorKind::Config);
    let r = DatasetConfig::new(
        c.name.clone(),
        c.input_channels,
        c.input_size,
        c.num_classes,
        c.class_names.clone(),
        c.model.clone(),
        c.training,
        c.artifacts.clone(),
    );
    assert_eq!(r.unwrap(), c);
}

#[test]
fn arity_and_channel_lookup() {
    let single = NormalizationValue::Single(7);
    let triple = NormalizationValue::Triple([1, 2, 3]);
    assert_eq!(single.arity(), 1);
    assert_eq!(triple.arity(), 3);
    assert_eq!(single.channel(0), 7);
    assert_eq!(triple.channel(2), 3);
    let n = NormalizationConfig { mean: single, std: triple };
    assert!(!n.fits(1));
    assert!(!n.fits(3));
}

#[test]
fn paths_join_directory_and_file() {
    let c = digit_config();
    assert_eq!(c.get_model_path(), "artifacts/mnist/model.mpk");
    assert_eq!(c.get_model_bin_path(), "artifacts/mnist/model.bin");
    assert_eq!(config_path("cifar10"), "configs/cifar10.json");
}

#[test]
fn load_reports_unreadable_and_malformed_files() {
    let e = DatasetConfig::load("mnist", ConfigSource::Unreadable("no such file".to_string()))
        .unwrap_err();
    assert_eq!(e.kind, ErrorKind::Config);
    assert_eq!(e.message, "設定ファイル読み込み失敗 configs/mnist.json: no such file");
    let e = DatasetConfig::load("mnist", ConfigSource::Malformed("EOF at line 1".to_string()))
        .unwrap_err();
    assert_eq!(e.message, "設定ファイル解析失敗 configs/mnist.json: EOF at line 1");
}

#[test]
fn load_validates_what_was_parsed() {
    let c = digit_config();
    assert_eq!(DatasetConfig::load("mnist", ConfigSource::Parsed(c.clone())).unwrap(), c);
    let mut bad = c.clone();
    bad.num_classes = 9;
    let e = DatasetConfig::load("mnist", ConfigSource::Parsed(bad)).unwrap_err();
    assert_eq!(e.kind, ErrorKind::Config);
    assert_eq!(e.message, "class_names must hold exactly num_classes names: configs/mnist.json");

    let mut bad = c;
    bad.training.normalization.mean = NormalizationValue::Triple([0, 0, 0]);
    let e = DatasetConfig::load("digits", ConfigSource::Parsed(bad)).unwrap_err();
    assert_eq!(e.kind, ErrorKind::Config);
    assert_eq!(
        e.message,
        "normalization must hold one value per input channel: configs/digits.json"
    );
}
