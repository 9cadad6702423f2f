use image_classifier::config::{
    ArtifactsConfig, DatasetConfig, ModelConfig, NormalizationConfig, NormalizationValue,
    TrainingConfig,
};
use image_classifier::error::ErrorKind;
use image_classifier::model::{Checkpoint, LeNet, ModelInstance, ModelTrait};
use image_classifier::service::{
    build_and_load_model, build_and_load_model_legacy, plan_model, top1_class, Cifar10Model,
    InferenceRequest, MnistModel,
};

pub fn service_config(name: &str, tag: &str, channels: usize, side: usize) -> DatasetConfig {
    let value = |x: u32| match channels {
        3 => NormalizationValue::Triple([x, x, x]),
        _ => NormalizationValue::Single(x),
    };
    let classes = if channels == 3 {
        vec![
            "airplane", "automobile", "bird", "cat", "deer", "dog", "frog", "horse", "ship",
            "truck",
        ]
    } else {
        vec!["0", "1", "2", "3", "4", "5", "6", "7", "8", "9"]
    };
    DatasetConfig {
        name: name.to_string(),
        input_channels: channels,
        input_size: [side, side],
        num_classes: 10,
        class_names: classes.into_iter().map(String::from).collect(),
        model: ModelConfig {
            model_type: tag.to_string(),
            conv1_out: None,
            conv2_out: None,
            conv3_out: None,
            fc1_out: 128,
            fc2_out: None,
        },
        training: TrainingConfig {
            epochs: 1,
            batch_size: 1,
            learning_rate: 0,
            normalization: NormalizationConfig { mean: value(3), std: value(4) },
        },
        artifacts: ArtifactsConfig {
            dir: "a".to_string(),
            model_file: "b".to_string(),
            model_bin: "c".to_string(),
            wasm_bg: "d".to_string(),
            wasm_js: "e".to_string(),
        },
    }
}

pub fn digit_checkpoint() -> Checkpoint {
    let config = service_config("mnist", "lenet", 1, 28);
    Checkpoint::Decoded(LeNet::new(&config).parameter_shapes())
}

#[test]
fn a_new_service_holds_no_model() {
    let service = MnistModel::new(service_config("mnist", "lenet", 1, 28));
    assert!(!service.is_loaded());
    assert_eq!(service.config.name, "mnist");
}

#[test]
fn loading_is_idempotent() {
    let mut service = MnistModel::new(service_config("mnist", "lenet", 1, 28));
    assert!(service.load(&digit_checkpoint()).is_ok());
    assert!(service.is_loaded());
    let loaded = service.clone();
    assert!(service.load(&Checkpoint::Undecodable("ignored".to_string())).is_ok());
    assert!(service.load(&Checkpoint::Decoded(vec![])).is_ok());
    assert_eq!(service, loaded);
}

#[test]
fn a_checkpoint_that_does_not_fit_is_fatal() {
    let mut service = Cifar10Model::new(service_config("cifar10", "cifar_net", 3, 32));
    let e = service.load(&digit_checkpoint()).unwrap_err();
    assert_eq!(e.kind, ErrorKind::Checkpoint);
    assert_eq!(
        e.message,
        "cifar10モデルのロードに失敗: parameter shapes differ from the architecture"
    );
    assert!(!service.is_loaded());
    let e = service.load(&Checkpoint::Undecodable("truncated".to_string())).unwrap_err();
    assert_eq!(e.message, "cifar10モデルのロードに失敗: truncated");
}

#[test]
fn an_unknown_architecture_cannot_be_loaded() {
    let mut service = MnistModel::new(service_config("mnist", "transformer", 1, 28));
    let e = service.load(&digit_checkpoint()).unwrap_err();
    assert_eq!(e.kind, ErrorKind::UnsupportedArchitecture);
    assert!(!service.is_loaded());
}

#[test]
fn inference_loads_the_model_if_it_has_to() {
    let mut service = MnistModel::new(service_config("mnist", "lenet", 1, 28));
    let checkpoint = digit_checkpoint();
    let request = service.inference(784, Some(&checkpoint)).unwrap();
    assert!(service.is_loaded());
    assert_eq!(
        request,
        InferenceRequest {
            dims: [1, 1, 28, 28],
            normalization: service.config.training.normalization,
            classes: 10,
            softmax: true,
        }
    );
    let again = service.inference(784, None).unwrap();
    assert_eq!(again, request);
}

#[test]
fn top1_differs_only_in_what_is_returned() {
    let mut service = Cifar10Model::new(service_config("cifar10", "cifar_net", 3, 32));
    let config = service.config.clone();
    let model = image_classifier::model::select_model(&config).unwrap();
    let checkpoint = Checkpoint::Decoded(model.parameter_shapes());
    let request = service.inference_top1(3 * 32 * 32, Some(&checkpoint)).unwrap();
    assert_eq!(request.dims, [1, 3, 32, 32]);
    assert_eq!(request.classes, 10);
    assert!(!request.softmax);
    assert!(matches!(service.model, Some(ModelInstance::Cifar10(_))));
}

#[test]
fn inference_without_a_model_fails() {
    let mut service = MnistModel::new(service_config("mnist", "lenet", 1, 28));
    let e = service.inference(784, None).unwrap_err();
    assert_eq!(e.kind, ErrorKind::Inference);
    assert_eq!(e.message, "model is not loaded: mnist");
    let bad = Checkpoint::Undecodable("empty".to_string());
    let e = service.inference_top1(784, Some(&bad)).unwrap_err();
    assert_eq!(e.kind, ErrorKind::Checkpoint);
    assert!(!service.is_loaded());
}

#[test]
fn inference_needs_a_buffer_of_the_configured_length() {
    let mut service = MnistModel::new(service_config("mnist", "lenet", 1, 28));
    let checkpoint = digit_checkpoint();
    let e = service.inference(783, Some(&checkpoint)).unwrap_err();
    assert_eq!(e.kind, ErrorKind::Inference);
    assert_eq!(e.message, "input does not hold channels * height * width values: mnist");
    assert!(service.is_loaded());
}

#[test]
fn inference_needs_an_input_that_fits_the_architecture() {
    let mut service = Cifar10Model::new(service_config("cifar10", "cifar_net", 3, 28));
    let model = image_classifier::model::select_model(&service.config).unwrap();
    let checkpoint = Checkpoint::Decoded(model.parameter_shapes());
    let e = service.inference(3 * 28 * 28, Some(&checkpoint)).unwrap_err();
    assert_eq!(e.kind, ErrorKind::Inference);
    assert_eq!(e.message, "input shape does not fit the architecture");
}

#[test]
fn class_names_with_a_sentinel() {
    let service = Cifar10Model::new(service_config("cifar10", "cifar_net", 3, 32));
    assert_eq!(service.get_class_name(0), "airplane");
    assert_eq!(service.get_class_name(9), "truck");
    assert_eq!(service.get_class_name(10), "unknown");
    assert_eq!(service.get_class_name(u32::MAX), "unknown");
    assert_eq!(service.get_class_names(), service.config.class_names);
}

#[test]
fn two_services_share_nothing() {
    let mut digits = MnistModel::new(service_config("mnist", "lenet", 1, 28));
    let images = Cifar10Model::new(service_config("cifar10", "cifar_net", 3, 32));
    digits.load(&digit_checkpoint()).unwrap();
    assert!(digits.is_loaded());
    assert!(!images.is_loaded());
}

#[test]
fn first_prediction_is_the_class() {
    assert_eq!(top1_class(&vec![7, 1]), 7);
    assert_eq!(top1_class(&vec![]), 0);
    assert_eq!(top1_class(&vec![-1]), u32::MAX);
    assert_eq!(top1_class(&vec![i32::MIN]), 1 << 31);
}

#[test]
fn only_the_digit_model_can_be_built() {
    let config = service_config("mnist", "lenet", 1, 28);
    let (model, returned) =
        build_and_load_model("mnist", Ok(config.clone()), &digit_checkpoint()).unwrap();
    assert_eq!(model, ModelInstance::Mnist(LeNet::new(&config)));
    assert_eq!(returned, config);
    assert_eq!(build_and_load_model_legacy(&config, &digit_checkpoint()), LeNet::new(&config));

    let e = build_and_load_model("cifar10", Ok(config.clone()), &digit_checkpoint()).unwrap_err();
    assert_eq!(e.kind, ErrorKind::NotImplemented);
    assert_eq!(e.message, "CIFAR-10はまだ実装されていません");

    let e = build_and_load_model("svhn", Ok(config.clone()), &digit_checkpoint()).unwrap_err();
    assert_eq!(e.kind, ErrorKind::UnsupportedDataset);
    assert_eq!(e.message, "未対応のデータセット: svhn");

    let e = build_and_load_model("mnist", Err("missing field".to_string()), &digit_checkpoint())
        .unwrap_err();
    assert_eq!(e.kind, ErrorKind::Config);
    assert_eq!(e.message, "MNIST設定の解析に失敗: missing field");

    let bad = Checkpoint::Undecodable("bad magic".to_string());
    let e = build_and_load_model("mnist", Ok(config), &bad).unwrap_err();
    assert_eq!(e.kind, ErrorKind::Checkpoint);
    assert_eq!(e.message, "MNISTモデルのロードに失敗: bad magic");
}

#[test]
fn the_architecture_is_known_before_the_checkpoint_is_decoded() {
    let mut config = service_config("mnist", "cifar_net", 1, 28);
    let plan = plan_model("mnist", &Ok(config.clone())).unwrap();
    assert_eq!(plan, ModelInstance::Mnist(LeNet::new(&config)));

    let e = plan_model("cifar10", &Ok(config.clone())).unwrap_err();
    assert_eq!(e.kind, ErrorKind::NotImplemented);
    let e = plan_model("svhn", &Ok(config.clone())).unwrap_err();
    assert_eq!(e.kind, ErrorKind::UnsupportedDataset);
    let e = plan_model("mnist", &Err("unexpected end".to_string())).unwrap_err();
    assert_eq!(e.kind, ErrorKind::Config);
    assert_eq!(e.message, "MNIST設定の解析に失敗: unexpected end");

    config.model.conv2_out = Some(usize::MAX);
    let e = plan_model("mnist", &Ok(config)).unwrap_err();
    assert_eq!(e.kind, ErrorKind::Config);
    assert_eq!(e.message, "layer widths do not fit the machine word: mnist");
}
