use image_classifier::config::{
    ArtifactsConfig, DatasetConfig, ModelConfig, NormalizationConfig, NormalizationValue,
    TrainingConfig,
};
use image_classifier::error::ErrorKind;
use image_classifier::infer::{
    class_label, dispatch_model, error_row, infer_paths, infer_single_path, is_image_file,
    load_model, prediction_line, select_image_files, table_header, table_row, InferencePlan,
    PathKind,
};
use image_classifier::model::{select_model, Checkpoint, LeNet, ModelInstance, ModelTrait};

pub fn names(list: &[&str]) -> Vec<String> {
    list.iter().map(|s| s.to_string()).collect()
}

pub fn labelled_config(class_names: &[&str]) -> DatasetConfig {
    DatasetConfig {
        name: "animals".to_string(),
        input_channels: 1,
        input_size: [28, 28],
        num_classes: class_names.len(),
        class_names: names(class_names),
        model: ModelConfig {
            model_type: "lenet".to_string(),
            conv1_out: None,
            conv2_out: None,
            conv3_out: None,
            fc1_out: 16,
            fc2_out: None,
        },
        training: TrainingConfig {
            epochs: 1,
            batch_size: 1,
            learning_rate: 0,
            normalization: NormalizationConfig {
                mean: NormalizationValue::Single(0),
                std: NormalizationValue::Single(0),
            },
        },
        artifacts: ArtifactsConfig {
            dir: "a".to_string(),
            model_file: "b".to_string(),
            model_bin: "c".to_string(),
            wasm_bg: "d".to_string(),
            wasm_js: "e".to_string(),
        },
    }
}

pub fn fitting_checkpoint(config: &DatasetConfig) -> Checkpoint {
    Checkpoint::Decoded(dispatch_model(config).unwrap().parameter_shapes())
}

#[test]
fn image_files_are_known_by_their_extension() {
    for path in ["a.png", "dir/a.PNG", "x.Png", "dir.d/..png", "日本.png", "a.b.png"] {
        assert!(is_image_file(path), "{path}");
    }
    for path in ["", ".png", "dir/.png", "png", "a.jpg", "a.png.txt", "a.pngx", "apng", "a.pn"] {
        assert!(!is_image_file(path), "{path}");
    }
}

#[test]
fn extension_rule_agrees_with_the_standard_library() {
    let candidates = [
        "a.png", ".png", "d/.png", "d/a.PNG", "a", "a.", "a..png", "d.png/a", "d/a.pNg", "a.png ",
        "..png", "d/..png", "d/...png", "é.png",
    ];
    for path in candidates {
        let expected = std::path::Path::new(path)
            .extension()
            .map(|e| e.eq_ignore_ascii_case("png"))
            .unwrap_or(false);
        assert_eq!(is_image_file(path), expected, "{path}");
    }
}

#[test]
fn directory_rows_come_in_lexicographic_order() {
    let entries = names(&["b.png", "notes.txt", "a.png", "c.png", "thumbs.db"]);
    assert_eq!(select_image_files(&entries), names(&["a.png", "b.png", "c.png"]));

    let config = labelled_config(&["zero", "one"]);
    let plan =
        infer_paths(&config, &fitting_checkpoint(&config), ".", PathKind::Directory(entries));
    assert_eq!(plan, Ok(InferencePlan::Table(names(&["a.png", "b.png", "c.png"]))));
}

#[test]
fn sorting_keeps_duplicates_and_compares_by_code_point() {
    let entries = names(&["d/b.png", "d/B.png", "d/b.png", "d/a10.png", "d/a2.png", "d/.png"]);
    assert_eq!(
        select_image_files(&entries),
        names(&["d/B.png", "d/a10.png", "d/a2.png", "d/b.png", "d/b.png"])
    );
    assert!(select_image_files(&Vec::new()).is_empty());
}

#[test]
fn sorting_agrees_with_the_standard_sort() {
    let mut entries = Vec::new();
    let mut state: u32 = 12345;
    for _ in 0..60 {
        state = state.wrapping_mul(1103515245).wrapping_add(12345);
        let stem: String = (0..(state >> 28) % 4 + 1)
            .map(|k| (b'a' + ((state >> (4 * k)) % 5) as u8) as char)
            .collect();
        entries.push(format!("dir/{stem}.png"));
    }
    let mut expected = entries.clone();
    expected.sort();
    assert_eq!(select_image_files(&entries), expected);
}

#[test]
fn a_directory_becomes_a_table() {
    let config = labelled_config(&["zero", "one"]);
    let plan = infer_paths(
        &config,
        &fitting_checkpoint(&config),
        "imgs",
        PathKind::Directory(names(&["imgs/z.png", "imgs/k.png"])),
    );
    assert_eq!(plan.unwrap(), InferencePlan::Table(names(&["imgs/k.png", "imgs/z.png"])));
}

#[test]
fn a_directory_without_images_is_noticed() {
    let config = labelled_config(&["zero", "one"]);
    let plan = infer_paths(
        &config,
        &fitting_checkpoint(&config),
        "imgs",
        PathKind::Directory(names(&["imgs/readme.md"])),
    );
    assert_eq!(
        plan.unwrap(),
        InferencePlan::Notice("(info) ディレクトリ内に .png ファイルがありません: imgs".to_string())
    );
}

#[test]
fn a_file_is_predicted_alone() {
    let config = labelled_config(&["zero", "one"]);
    let plan = infer_paths(&config, &fitting_checkpoint(&config), "x.png", PathKind::File);
    assert_eq!(plan.unwrap(), InferencePlan::Single);
}

#[test]
fn anything_else_is_an_error() {
    let config = labelled_config(&["zero", "one"]);
    let e = infer_paths(&config, &fitting_checkpoint(&config), "/dev/null0", PathKind::Other)
        .unwrap_err();
    assert_eq!(e.kind, ErrorKind::Io);
    assert_eq!(e.message, "指定パスがファイルでもディレクトリでもありません: /dev/null0");
}

#[test]
fn class_names_by_index() {
    let classes = names(&["cat", "dog"]);
    assert_eq!(class_label(&classes, 0), "cat");
    assert_eq!(class_label(&classes, 1), "dog");
    assert_eq!(class_label(&classes, 2), "unknown_2");
    assert_eq!(class_label(&classes, -1), "unknown_-1");
    assert_eq!(class_label(&classes, i32::MIN), "unknown_-2147483648");
    assert_eq!(class_label(&Vec::new(), 0), "unknown_0");
}

#[test]
fn printed_lines() {
    assert_eq!(table_header(), "File,Pred,Class");
    assert_eq!(table_row("d/a.png", 3, "cat"), "d/a.png,3,cat");
    assert_eq!(table_row("d/a.png", -7, "unknown_-7"), "d/a.png,-7,unknown_-7");
    assert_eq!(error_row("d/a.png", "bad header"), "d/a.png,ERROR:bad header,");
    assert_eq!(prediction_line(12, "truck"), "Predicted: 12 (truck)");
}

#[test]
fn single_prediction_takes_the_first_index() {
    let config = labelled_config(&["cat", "dog", "eel"]);
    assert_eq!(infer_single_path(&config, &vec![2, 0]), (2, "eel".to_string()));
    assert_eq!(infer_single_path(&config, &vec![3]), (3, "unknown_3".to_string()));
}

#[test]
fn batch_inference_takes_an_unknown_tag_as_a_configuration_fault() {
    let mut config = labelled_config(&["zero", "one"]);
    assert_eq!(dispatch_model(&config), Ok(ModelInstance::Mnist(LeNet::new(&config))));
    config.model.model_type = "resnet".to_string();
    let e = dispatch_model(&config).unwrap_err();
    assert_eq!(e.kind, ErrorKind::Config);
    assert_eq!(e.message, "未対応のモデルタイプ: resnet");
    assert_eq!(select_model(&config).unwrap_err().kind, ErrorKind::UnsupportedArchitecture);
    let e = load_model(&config, &Checkpoint::Decoded(Vec::new())).unwrap_err();
    assert_eq!(e.kind, ErrorKind::Config);
}

#[test]
fn batch_inference_loads_only_a_checkpoint_of_the_right_shapes() {
    let config = labelled_config(&["zero", "one"]);
    let model = dispatch_model(&config).unwrap();
    let shapes = model.parameter_shapes();
    assert_eq!(load_model(&config, &Checkpoint::Decoded(shapes.clone())), Ok(model));

    let mut other = shapes;
    other[0][0] += 1;
    let e = load_model(&config, &Checkpoint::Decoded(other)).unwrap_err();
    assert_eq!(e.kind, ErrorKind::Checkpoint);
    assert_eq!(e.message, "モデル読み込み失敗: parameter shapes differ from the architecture");

    let e = load_model(&config, &Checkpoint::Undecodable("truncated".to_string())).unwrap_err();
    assert_eq!(e.kind, ErrorKind::Checkpoint);
    assert_eq!(e.message, "モデル読み込み失敗: truncated");
}

#[test]
fn an_unknown_tag_fails_before_the_path_is_looked_at() {
    let good = labelled_config(&["zero", "one"]);
    let checkpoint = fitting_checkpoint(&good);
    let mut config = good;
    config.model.model_type = "resnet".to_string();
    for kind in [
        PathKind::Other,
        PathKind::File,
        PathKind::Directory(names(&["a.png"])),
        PathKind::Directory(Vec::new()),
    ] {
        let e = infer_paths(&config, &checkpoint, "imgs", kind).unwrap_err();
        assert_eq!(e.kind, ErrorKind::Config);
        assert_eq!(e.message, "未対応のモデルタイプ: resnet");
    }
}

#[test]
fn a_checkpoint_that_does_not_fit_fails_before_the_path_is_looked_at() {
    let config = labelled_config(&["zero", "one"]);
    let bad = Checkpoint::Undecodable("no such file".to_string());
    let e = infer_paths(&config, &bad, "x.png", PathKind::File).unwrap_err();
    assert_eq!(e.kind, ErrorKind::Checkpoint);
    assert_eq!(e.message, "モデル読み込み失敗: no such file");
    let e = infer_paths(&config, &Checkpoint::Decoded(Vec::new()), "x", PathKind::Other)
        .unwrap_err();
    assert_eq!(e.kind, ErrorKind::Checkpoint);
}
