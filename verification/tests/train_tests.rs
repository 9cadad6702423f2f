use image_classifier::config::{
    ArtifactsConfig, DatasetConfig, ModelConfig, NormalizationConfig, NormalizationValue,
    TrainingConfig,
};
use image_classifier::error::{Error, ErrorKind};
use image_classifier::train::{
    train, write_failed, Action, EpochReport, Event, Phase, TrainConfig, Trainer, SHUFFLE_SEED,
};

pub fn train_config(name: &str, epochs: u32) -> TrainConfig {
    TrainConfig {
        dataset_config: DatasetConfig {
            name: name.to_string(),
            input_channels: 1,
            input_size: [28, 28],
            num_classes: 10,
            class_names: (0..10).map(|d| d.to_string()).collect(),
            model: ModelConfig {
                model_type: "lenet".to_string(),
                conv1_out: None,
                conv2_out: None,
                conv3_out: None,
                fc1_out: 128,
                fc2_out: None,
            },
            training: TrainingConfig {
                epochs: 9,
                batch_size: 64,
                learning_rate: 0,
                normalization: NormalizationConfig {
                    mean: NormalizationValue::Single(0),
                    std: NormalizationValue::Single(0),
                },
            },
            artifacts: ArtifactsConfig {
                dir: "artifacts".to_string(),
                model_file: "model.mpk".to_string(),
                model_bin: "model.bin".to_string(),
                wasm_bg: "bg.wasm".to_string(),
                wasm_js: "model.js".to_string(),
            },
        },
        epochs,
        batch_size: 64,
    }
}

pub fn drive(trainer: &mut Trainer, events: Vec<Event>) -> Vec<Action> {
    let mut actions = Vec::new();
    for event in events {
        assert!(trainer.can_accept(&event));
        trainer.step(event);
        actions.push(trainer.action());
    }
    actions
}

#[test]
fn unknown_dataset_fails_before_anything_is_built() {
    let e = train(train_config("imagenet", 1)).unwrap_err();
    assert_eq!(e.kind, ErrorKind::UnsupportedDataset);
    assert_eq!(e.message, "未対応のデータセット: imagenet");
}

#[test]
fn natural_image_training_is_not_implemented() {
    let e = train(train_config("cifar10", 1)).unwrap_err();
    assert_eq!(e.kind, ErrorKind::NotImplemented);
    assert_eq!(
        e.message,
        "CIFAR-10データセットはまだ実装されていません。後でカスタムデータローダーを作成します。"
    );
}

#[test]
fn a_run_starts_by_preparing() {
    let trainer = train(train_config("mnist", 3)).unwrap();
    assert_eq!(trainer.phase, Phase::Init);
    assert_eq!(trainer.action(), Action::Prepare);
    assert_eq!(trainer.config.epochs, 3);
}

#[test]
fn two_epochs_then_both_checkpoints() {
    let mut trainer = train(train_config("mnist", 2)).unwrap();
    let actions = drive(
        &mut trainer,
        vec![
            Event::Prepared,
            Event::BatchTrained,
            Event::BatchTrained,
            Event::TrainExhausted,
            Event::BatchEvaluated { predictions: vec![1, 2, 3], targets: vec![1, 0, 3] },
            Event::TestExhausted,
            Event::Reported,
            Event::BatchTrained,
            Event::TrainExhausted,
            Event::BatchEvaluated { predictions: vec![7], targets: vec![7] },
            Event::BatchEvaluated { predictions: vec![7, 8], targets: vec![8, 7] },
            Event::TestExhausted,
            Event::Reported,
            Event::FileWritten,
            Event::BlobWritten,
        ],
    );
    assert_eq!(
        actions,
        vec![
            Action::TrainBatch,
            Action::TrainBatch,
            Action::TrainBatch,
            Action::EvalBatch,
            Action::EvalBatch,
            Action::Report,
            Action::TrainBatch,
            Action::TrainBatch,
            Action::EvalBatch,
            Action::EvalBatch,
            Action::EvalBatch,
            Action::Report,
            Action::WriteFile,
            Action::WriteBlob,
            Action::Finish,
        ]
    );
    assert_eq!(trainer.phase, Phase::Done);
}

#[test]
fn report_holds_the_figures_of_the_epoch() {
    let mut trainer = train(train_config("mnist", 2)).unwrap();
    drive(
        &mut trainer,
        vec![
            Event::Prepared,
            Event::BatchTrained,
            Event::BatchTrained,
            Event::TrainExhausted,
            Event::BatchEvaluated { predictions: vec![1, 2, 3], targets: vec![1, 0, 3] },
            Event::BatchEvaluated { predictions: vec![4], targets: vec![4] },
            Event::TestExhausted,
        ],
    );
    assert_eq!(trainer.report(), EpochReport { epoch: 1, batches: 2, correct: 3, total: 4 });
    drive(&mut trainer, vec![Event::Reported, Event::TrainExhausted, Event::TestExhausted]);
    assert_eq!(trainer.report(), EpochReport { epoch: 2, batches: 0, correct: 0, total: 0 });
}

#[test]
fn no_epochs_goes_straight_to_the_checkpoints() {
    let mut trainer = train(train_config("mnist", 0)).unwrap();
    let actions = drive(&mut trainer, vec![Event::Prepared, Event::FileWritten, Event::BlobWritten]);
    assert_eq!(actions, vec![Action::WriteFile, Action::WriteBlob, Action::Finish]);
}

#[test]
fn a_failure_ends_the_run() {
    let failure = Error { kind: ErrorKind::Io, message: "disk full".to_string() };
    let mut trainer = train(train_config("mnist", 1)).unwrap();
    let actions = drive(
        &mut trainer,
        vec![Event::Prepared, Event::Failed(failure.clone()), Event::BatchTrained, Event::Prepared],
    );
    assert_eq!(actions, vec![Action::TrainBatch, Action::Abort, Action::Abort, Action::Abort]);
    assert_eq!(trainer.failure, Some(failure));
    assert_eq!(trainer.phase, Phase::Failed);
}

#[test]
fn events_that_do_not_answer_the_action_are_ignored() {
    let mut trainer = train(train_config("mnist", 1)).unwrap();
    let before = trainer.clone();
    drive(
        &mut trainer,
        vec![Event::BatchTrained, Event::Reported, Event::BlobWritten, Event::TestExhausted],
    );
    assert_eq!(trainer, before);
    drive(&mut trainer, vec![Event::Prepared, Event::FileWritten, Event::TestExhausted]);
    assert_eq!(trainer.phase, Phase::TrainEpoch);
    assert_eq!(trainer.batches, 0);
}

#[test]
fn a_finished_run_stays_finished() {
    let mut trainer = train(train_config("mnist", 0)).unwrap();
    drive(&mut trainer, vec![Event::Prepared, Event::FileWritten, Event::BlobWritten]);
    let done = trainer.clone();
    let failure = Error { kind: ErrorKind::Io, message: "late".to_string() };
    drive(&mut trainer, vec![Event::Failed(failure), Event::Prepared, Event::BlobWritten]);
    assert_eq!(trainer, done);
}

#[test]
fn the_blob_is_written_after_the_file() {
    let mut trainer = train(train_config("mnist", 0)).unwrap();
    let actions = drive(&mut trainer, vec![Event::Prepared, Event::BlobWritten]);
    assert_eq!(actions, vec![Action::WriteFile, Action::WriteFile]);
}

#[test]
fn mismatched_predictions_are_not_accepted() {
    let mut trainer = train(train_config("mnist", 1)).unwrap();
    drive(&mut trainer, vec![Event::Prepared, Event::TrainExhausted]);
    assert!(!trainer.can_accept(&Event::BatchEvaluated { predictions: vec![1], targets: vec![] }));
    assert!(trainer.can_accept(&Event::BatchEvaluated { predictions: vec![1], targets: vec![2] }));
    trainer.total = usize::MAX;
    trainer.correct = 0;
    assert!(!trainer.can_accept(&Event::BatchEvaluated { predictions: vec![1], targets: vec![2] }));
    assert!(trainer.can_accept(&Event::TestExhausted));
}

#[test]
fn a_checkpoint_that_cannot_be_written_ends_the_run() {
    let event = write_failed("artifacts/mnist/model.bin", "permission denied");
    let expected = Error {
        kind: ErrorKind::Checkpoint,
        message: "checkpoint cannot be written: artifacts/mnist/model.bin: permission denied"
            .to_string(),
    };
    assert_eq!(event, Event::Failed(expected.clone()));

    let mut trainer = train(train_config("mnist", 0)).unwrap();
    let actions = drive(&mut trainer, vec![Event::Prepared, Event::FileWritten, event]);
    assert_eq!(actions, vec![Action::WriteFile, Action::WriteBlob, Action::Abort]);
    assert_eq!(trainer.failure, Some(expected));
}

#[test]
fn the_shuffle_seed_is_fixed() {
    assert_eq!(SHUFFLE_SEED, 42);
}
