use image::{DynamicImage, GrayImage, RgbImage, RgbaImage};
use image_classifier::config::{
    ArtifactsConfig, DatasetConfig, ModelConfig, NormalizationConfig, NormalizationValue,
    TrainingConfig,
};
use image_classifier::error::ErrorKind;
use image_classifier::preprocess::{prepare_image, to_planar, to_tensor, RawImage};

pub fn input_config(channels: usize, height: usize, width: usize) -> DatasetConfig {
    let value = |x: u32| match channels {
        3 => NormalizationValue::Triple([x, x + 1, x + 2]),
        _ => NormalizationValue::Single(x),
    };
    DatasetConfig {
        name: "inputs".to_string(),
        input_channels: channels,
        input_size: [height, width],
        num_classes: 2,
        class_names: vec!["a".to_string(), "b".to_string()],
        model: ModelConfig {
            model_type: "lenet".to_string(),
            conv1_out: None,
            conv2_out: None,
            conv3_out: None,
            fc1_out: 8,
            fc2_out: None,
        },
        training: TrainingConfig {
            epochs: 1,
            batch_size: 1,
            learning_rate: 0,
            normalization: NormalizationConfig { mean: value(10), std: value(20) },
        },
        artifacts: ArtifactsConfig {
            dir: "a".to_string(),
            model_file: "b".to_string(),
            model_bin: "c".to_string(),
            wasm_bg: "d".to_string(),
            wasm_js: "e".to_string(),
        },
    }
}

#[test]
fn planar_layout_moves_channels_apart() {
    // two pixels of three channels
    assert_eq!(to_planar(&vec![1, 2, 3, 4, 5, 6], 3, 2), vec![1, 4, 2, 5, 3, 6]);
    assert_eq!(to_planar(&vec![9, 8, 7], 1, 3), vec![9, 8, 7]);
    assert_eq!(to_planar(&vec![9, 8, 7], 3, 1), vec![9, 8, 7]);
    assert!(to_planar(&Vec::new(), 3, 0).is_empty());
    assert!(to_planar(&Vec::new(), 0, 5).is_empty());
}

#[test]
fn gray_image_of_the_configured_size_is_taken_as_it_is() {
    let raw = RawImage { width: 3, height: 2, pixels: vec![1, 2, 3, 4, 5, 6] };
    let config = input_config(1, 2, 3);
    let input = prepare_image(raw, &config).unwrap();
    assert_eq!(input.pixels, vec![1, 2, 3, 4, 5, 6]);
    assert_eq!(input.dims, [1, 1, 2, 3]);
    assert_eq!(input.normalization, config.training.normalization);
}

#[test]
fn gray_image_is_resized_by_nearest_pixel() {
    let raw = RawImage { width: 2, height: 2, pixels: vec![10, 20, 30, 40] };
    let input = prepare_image(raw, &input_config(1, 4, 4)).unwrap();
    assert_eq!(input.dims, [1, 1, 4, 4]);
    assert_eq!(
        input.pixels,
        vec![10, 10, 20, 20, 10, 10, 20, 20, 30, 30, 40, 40, 30, 30, 40, 40]
    );
    let raw = RawImage { width: 4, height: 1, pixels: vec![1, 2, 3, 4] };
    let input = prepare_image(raw, &input_config(1, 1, 2)).unwrap();
    assert_eq!(input.pixels.len(), 2);
}

#[test]
fn color_image_is_resized_and_laid_out_by_channel() {
    let raw = RawImage { width: 1, height: 1, pixels: vec![7, 8, 9] };
    let input = prepare_image(raw, &input_config(3, 2, 2)).unwrap();
    assert_eq!(input.dims, [1, 3, 2, 2]);
    assert_eq!(input.pixels, vec![7, 7, 7, 7, 8, 8, 8, 8, 9, 9, 9, 9]);
    let raw = RawImage { width: 2, height: 1, pixels: vec![1, 2, 3, 4, 5, 6] };
    let input = prepare_image(raw, &input_config(3, 1, 2)).unwrap();
    assert_eq!(input.pixels, vec![1, 4, 2, 5, 3, 6]);
}

#[test]
fn empty_targets_and_sources() {
    let raw = RawImage { width: 2, height: 2, pixels: vec![1, 2, 3, 4] };
    let input = prepare_image(raw, &input_config(1, 0, 3)).unwrap();
    assert!(input.pixels.is_empty());
    assert_eq!(input.dims, [1, 1, 0, 3]);
    let raw = RawImage { width: 0, height: 5, pixels: vec![] };
    let input = prepare_image(raw, &input_config(1, 2, 2)).unwrap();
    assert_eq!(input.pixels, vec![0, 0, 0, 0]);
}

#[test]
fn channels_other_than_one_or_three_are_rejected() {
    let raw = RawImage { width: 1, height: 1, pixels: vec![1, 2] };
    let e = prepare_image(raw, &input_config(2, 1, 1)).unwrap_err();
    assert_eq!(e.kind, ErrorKind::Config);
    assert_eq!(e.message, "未対応のチャンネル数: 2");
    let raw = RawImage { width: 1, height: 1, pixels: vec![] };
    let e = prepare_image(raw, &input_config(0, 1, 1)).unwrap_err();
    assert_eq!(e.message, "未対応のチャンネル数: 0");
}

#[test]
fn normalization_must_match_the_channels_of_the_input() {
    let mut config = input_config(3, 1, 1);
    config.training.normalization.mean = NormalizationValue::Single(1);
    let raw = RawImage { width: 1, height: 1, pixels: vec![1, 2, 3] };
    let e = prepare_image(raw, &config).unwrap_err();
    assert_eq!(e.kind, ErrorKind::Config);
    assert_eq!(e.message, "normalization must hold one value per input channel: inputs");
}

#[test]
fn buffer_must_hold_the_pixels_of_its_dimensions() {
    let raw = RawImage { width: 2, height: 2, pixels: vec![1, 2, 3] };
    let e = prepare_image(raw, &input_config(1, 2, 2)).unwrap_err();
    assert_eq!(e.kind, ErrorKind::Io);
    assert_eq!(e.message, "decoded image does not hold width * height pixels: inputs");
    let raw = RawImage { width: 2, height: 2, pixels: vec![1, 2, 3, 4] };
    assert!(prepare_image(raw, &input_config(3, 2, 2)).is_err());
}

#[test]
fn sizes_beyond_the_machine_are_rejected() {
    let raw = RawImage { width: 1, height: 1, pixels: vec![1] };
    let e = prepare_image(raw, &input_config(1, usize::MAX, 1)).unwrap_err();
    assert_eq!(e.kind, ErrorKind::Io);
    assert_eq!(e.message, "image is too large to resize: inputs");
    let raw = RawImage { width: 1, height: 1, pixels: vec![1] };
    assert!(prepare_image(raw, &input_config(1, 1, 1 << 32)).is_err());
    let raw = RawImage { width: 1, height: 1, pixels: vec![1] };
    assert!(prepare_image(raw, &input_config(1, u32::MAX as usize, u32::MAX as usize)).is_err());
    let raw = RawImage { width: u32::MAX, height: 0, pixels: vec![] };
    assert!(prepare_image(raw, &input_config(1, 1 << 31, 1)).is_err());
}

#[test]
fn decoded_gray_image_becomes_one_channel() {
    let gray = GrayImage::from_raw(2, 2, vec![10, 20, 30, 40]).unwrap();
    let input = to_tensor(&DynamicImage::ImageLuma8(gray), &input_config(1, 4, 4)).unwrap();
    assert_eq!(input.dims, [1, 1, 4, 4]);
    assert_eq!(
        input.pixels,
        vec![10, 10, 20, 20, 10, 10, 20, 20, 30, 30, 40, 40, 30, 30, 40, 40]
    );
}

#[test]
fn decoded_color_image_becomes_three_channels() {
    let rgba = RgbaImage::from_raw(2, 1, vec![1, 2, 3, 255, 4, 5, 6, 255]).unwrap();
    let config = input_config(3, 1, 2);
    let input = to_tensor(&DynamicImage::ImageRgba8(rgba), &config).unwrap();
    assert_eq!(input.dims, [1, 3, 1, 2]);
    assert_eq!(input.pixels, vec![1, 4, 2, 5, 3, 6]);
    assert_eq!(input.normalization, config.training.normalization);
}

#[test]
fn decoded_color_image_is_reduced_to_gray_levels() {
    let rgb = RgbImage::from_raw(1, 1, vec![255, 255, 255]).unwrap();
    let input = to_tensor(&DynamicImage::ImageRgb8(rgb), &input_config(1, 2, 2)).unwrap();
    assert_eq!(input.pixels, vec![255, 255, 255, 255]);
    let gray = GrayImage::from_raw(1, 1, vec![9]).unwrap();
    let input = to_tensor(&DynamicImage::ImageLuma8(gray), &input_config(3, 1, 1)).unwrap();
    assert_eq!(input.pixels, vec![9, 9, 9]);
}

#[test]
fn decoded_image_is_rejected_by_a_configuration_of_two_channels() {
    let gray = GrayImage::from_raw(1, 1, vec![9]).unwrap();
    let e = to_tensor(&DynamicImage::ImageLuma8(gray), &input_config(2, 1, 1)).unwrap_err();
    assert_eq!(e.kind, ErrorKind::Config);
    assert_eq!(e.message, "未対応のチャンネル数: 2");
}

#[test]
fn only_the_pixels_of_a_longer_buffer_are_read() {
    let gray = GrayImage::from_raw(1, 1, vec![5, 6]).unwrap();
    let input = to_tensor(&DynamicImage::ImageLuma8(gray), &input_config(1, 1, 1)).unwrap();
    assert_eq!(input.dims, [1, 1, 1, 1]);
    assert_eq!(input.pixels, vec![5]);

    let gray = GrayImage::from_raw(2, 1, vec![7, 8, 9, 10, 11]).unwrap();
    let input = to_tensor(&DynamicImage::ImageLuma8(gray), &input_config(1, 2, 4)).unwrap();
    assert_eq!(input.pixels, vec![7, 7, 8, 8, 7, 7, 8, 8]);

    let rgb = RgbImage::from_raw(1, 2, vec![1, 2, 3, 4, 5, 6, 7, 8]).unwrap();
    let input = to_tensor(&DynamicImage::ImageRgb8(rgb), &input_config(3, 2, 1)).unwrap();
    assert_eq!(input.pixels, vec![1, 4, 2, 5, 3, 6]);
}

#[test]
fn every_image_gives_an_input_of_the_configured_shape() {
    let config = input_config(3, 5, 7);
    for (width, height) in [(1, 1), (7, 5), (64, 3), (3, 64), (0, 0), (0, 4)] {
        let gray = GrayImage::from_raw(width, height, vec![128; (width * height) as usize]);
        let input = to_tensor(&DynamicImage::ImageLuma8(gray.unwrap()), &config).unwrap();
        assert_eq!(input.dims, [1, 3, 5, 7]);
        assert_eq!(input.pixels.len(), 3 * 5 * 7);
        assert_eq!(input.normalization, config.training.normalization);
    }
}
