//! The epoch state machine of a training run.
//!
//! Training alternates between work that only the numeric engine can do (a
//! forward pass, a gradient step, writing a checkpoint) and decisions about
//! what to do next. The decisions live here: a [`Trainer`] says which action
//! is due, the driver performs it and reports back with an [`Event`], and
//! `step` moves the trainer on.
//!
//! A run goes `Init`, then `TrainEpoch`, `EvalEpoch` and `Report` once per
//! epoch, then `PersistFile` and `PersistBlob`, then `Done`. A failure
//! reported by the driver leads from any unfinished state to `Failed`.

use crate::config::DatasetConfig;
use crate::error::{Error, ErrorKind};
use crate::eval::{count_correct, count_matches};
use vstd::prelude::*;

verus! {

/// The seed with which the training samples are shuffled, the same in every
/// run, so that the batches come in the same order.
pub const SHUFFLE_SEED: u64 = 42;

/// What a training run is asked to do.
#[derive(Debug, Clone, PartialEq, Eq)]
pub struct TrainConfig {
    pub dataset_config: DatasetConfig,
    pub epochs: u32,
    pub batch_size: usize,
}

/// Where a training run stands.
#[derive(Debug, Clone, Copy, PartialEq, Eq, Structural)]
pub enum Phase {
    /// Nothing is built yet.
    Init,
    /// The training batches of the current epoch are being consumed.
    TrainEpoch,
    /// The test batches are being consumed with frozen parameters.
    EvalEpoch,
    /// The epoch is over and its figures are due.
    Report,
    /// The structured checkpoint file is due.
    PersistFile,
    /// The checkpoint blob is due.
    PersistBlob,
    /// Both checkpoints are written.
    Done,
    /// The run was given up.
    Failed,
}

/// What the driver has to do next.
#[derive(Debug, Clone, Copy, PartialEq, Eq, Structural)]
pub enum Action {
    /// Build the datasets, the loaders, the model, the optimizer and the loss.
    Prepare,
    /// Take the next training batch; run forward, loss, backward and exactly
    /// one optimizer step on it.
    TrainBatch,
    /// Take the next test batch and predict its labels with frozen parameters.
    EvalBatch,
    /// Report the figures of the epoch that just ended.
    Report,
    /// Write the structured checkpoint file from the frozen final parameters.
    WriteFile,
    /// Write the checkpoint blob from the same frozen final parameters.
    WriteBlob,
    /// Nothing is left to do.
    Finish,
    /// Give up and surface the failure.
    Abort,
}

/// What the driver reports after performing an action.
#[derive(Debug, Clone, PartialEq, Eq)]
pub enum Event {
    /// Everything that `Prepare` asks for is built.
    Prepared,
    /// One optimizer step was applied to one training batch.
    BatchTrained,
    /// The training loader has no batch left in this epoch.
    TrainExhausted,
    /// The labels of one test batch were predicted.
    BatchEvaluated { predictions: Vec<i64>, targets: Vec<i64> },
    /// The test loader has no batch left.
    TestExhausted,
    /// The figures of the epoch were reported.
    Reported,
    /// The structured checkpoint file was written.
    FileWritten,
    /// The checkpoint blob was written.
    BlobWritten,
    /// The action failed.
    Failed(Error),
}

/// The figures of one epoch.
#[derive(Debug, Clone, Copy, PartialEq, Eq, Structural)]
pub struct EpochReport {
    /// The epoch, counted from one.
    pub epoch: u32,
    /// The number of training batches consumed; the mean training loss is the
    /// accumulated loss over this number, or over one if it is zero.
    pub batches: usize,
    /// The number of test samples classified correctly.
    pub correct: usize,
    /// The number of test samples seen.
    pub total: usize,
}

/// A training run in progress.
#[derive(Debug, Clone, PartialEq, Eq)]
pub struct Trainer {
    pub config: TrainConfig,
    pub phase: Phase,
    pub epoch: u32,
    pub batches: usize,
    pub correct: usize,
    pub total: usize,
    pub failure: Option<Error>,
}

/// The text of the failure reported for a dataset that is unknown.
pub open spec fn unsupported_dataset_message(name: Seq<char>) -> Seq<char> {
    "未対応のデータセット: "@ + name
}

/// The text of the failure reported for the dataset whose training path does
/// not exist yet.
pub open spec fn not_implemented_message() -> Seq<char> {
    "CIFAR-10データセットはまだ実装されていません。後でカスタムデータローダーを作成します。"@
}

/// The text of the failure reported for a checkpoint that could not be
/// written.
pub open spec fn write_failure_message(path: Seq<char>, reason: Seq<char>) -> Seq<char> {
    "checkpoint cannot be written: "@ + path + ": "@ + reason
}

/// What `train` answers for a dataset name.
pub open spec fn spec_train(name: Seq<char>) -> Result<(), (ErrorKind, Seq<char>)> {
    if name == "mnist"@ {
        Ok(())
    } else if name == "cifar10"@ {
        Err((ErrorKind::NotImplemented, not_implemented_message()))
    } else {
        Err((ErrorKind::UnsupportedDataset, unsupported_dataset_message(name)))
    }
}

impl Trainer {
    /// The invariant of a trainer: the epoch counter stays within the
    /// requested number of epochs, no more test samples are correct than were
    /// seen, and a failure is recorded exactly in the failed state.
    pub open spec fn well_formed(&self) -> bool {
        &&& self.correct <= self.total
        &&& (self.phase == Phase::Failed <==> self.failure is Some)
        &&& match self.phase {
            Phase::Init => self.epoch == 0,
            Phase::TrainEpoch | Phase::EvalEpoch | Phase::Report => 1 <= self.epoch
                <= self.config.epochs,
            Phase::PersistFile | Phase::PersistBlob | Phase::Done => self.epoch
                == self.config.epochs,
            Phase::Failed => self.epoch <= self.config.epochs,
        }
    }

    /// True once the run has ended, well or badly.
    pub open spec fn is_terminal(&self) -> bool {
        self.phase == Phase::Done || self.phase == Phase::Failed
    }

    /// Whether `step` accepts the event in this state: the counters must have
    /// room for it, and a batch of predictions must have one target each.
    pub open spec fn accepts(&self, event: Event) -> bool {
        match (self.phase, event) {
            (Phase::TrainEpoch, Event::BatchTrained) => self.batches < usize::MAX,
            (Phase::EvalEpoch, Event::BatchEvaluated { predictions, targets }) => {
                &&& predictions@.len() == targets@.len()
                &&& self.total + predictions@.len() <= usize::MAX
            },
            _ => true,
        }
    }

    /// The state that follows this one on an event. An event that does not
    /// answer the action that is due leaves the state as it is, and so does
    /// every event once the run has ended.
    pub open spec fn spec_step(self, event: Event) -> Trainer {
        match (self.phase, event) {
            (Phase::Done, _) | (Phase::Failed, _) => self,
            (_, Event::Failed(e)) => Trainer { phase: Phase::Failed, failure: Some(e), ..self },
            (Phase::Init, Event::Prepared) => if self.config.epochs == 0 {
                Trainer { phase: Phase::PersistFile, ..self }
            } else {
                Trainer { phase: Phase::TrainEpoch, epoch: 1, batches: 0, correct: 0, total: 0, ..self }
            },
            (Phase::TrainEpoch, Event::BatchTrained) => Trainer {
                batches: (self.batches + 1) as usize,
                ..self
            },
            (Phase::TrainEpoch, Event::TrainExhausted) => Trainer {
                phase: Phase::EvalEpoch,
                correct: 0,
                total: 0,
                ..self
            },
            (Phase::EvalEpoch, Event::BatchEvaluated { predictions, targets }) => Trainer {
                correct: (self.correct + count_matches(predictions@, targets@)) as usize,
                total: (self.total + predictions@.len()) as usize,
                ..self
            },
            (Phase::EvalEpoch, Event::TestExhausted) => Trainer { phase: Phase::Report, ..self },
            (Phase::Report, Event::Reported) => if self.epoch < self.config.epochs {
                Trainer {
                    phase: Phase::TrainEpoch,
                    epoch: (self.epoch + 1) as u32,
                    batches: 0,
                    correct: 0,
                    total: 0,
                    ..self
                }
            } else {
                Trainer { phase: Phase::PersistFile, ..self }
            },
            (Phase::PersistFile, Event::FileWritten) => Trainer {
                phase: Phase::PersistBlob,
                ..self
            },
            (Phase::PersistBlob, Event::BlobWritten) => Trainer { phase: Phase::Done, ..self },
            _ => self,
        }
    }

    /// The action that is due in a phase.
    pub open spec fn spec_action(phase: Phase) -> Action {
        match phase {
            Phase::Init => Action::Prepare,
            Phase::TrainEpoch => Action::TrainBatch,
            Phase::EvalEpoch => Action::EvalBatch,
            Phase::Report => Action::Report,
            Phase::PersistFile => Action::WriteFile,
            Phase::PersistBlob => Action::WriteBlob,
            Phase::Done => Action::Finish,
            Phase::Failed => Action::Abort,
        }
    }

    /// The action that is due.
    pub fn action(&self) -> (a: Action)
        ensures
            a == Self::spec_action(self.phase),
    {
        match self.phase {
            Phase::Init => Action::Prepare,
            Phase::TrainEpoch => Action::TrainBatch,
            Phase::EvalEpoch => Action::EvalBatch,
            Phase::Report => Action::Report,
            Phase::PersistFile => Action::WriteFile,
            Phase::PersistBlob => Action::WriteBlob,
            Phase::Done => Action::Finish,
            Phase::Failed => Action::Abort,
        }
    }

    /// Decides whether `step` accepts the event in this state.
    pub fn can_accept(&self, event: &Event) -> (ok: bool)
        ensures
            ok == self.accepts(*event),
    {
        match self.phase {
            Phase::TrainEpoch => match event {
                Event::BatchTrained => self.batches < usize::MAX,
                _ => true,
            },
            Phase::EvalEpoch => match event {
                Event::BatchEvaluated { predictions, targets } => predictions.len()
                    == targets.len() && predictions.len() <= usize::MAX - self.total,
                _ => true,
            },
            _ => true,
        }
    }

    /// Moves the run on by one event.
    pub fn step(&mut self, event: Event)
        requires
            old(self).well_formed(),
            old(self).accepts(event),
        ensures
            *final(self) == old(self).spec_step(event),
            final(self).well_formed(),
    {
        match self.phase {
            Phase::Done | Phase::Failed => {},
            Phase::Init => match event {
                Event::Failed(e) => {
                    self.phase = Phase::Failed;
                    self.failure = Some(e);
                },
                Event::Prepared => {
                    if self.config.epochs == 0 {
                        self.phase = Phase::PersistFile;
                    } else {
                        self.phase = Phase::TrainEpoch;
                        self.epoch = 1;
                        self.batches = 0;
                        self.correct = 0;
                        self.total = 0;
                    }
                },
                _ => {},
            },
            Phase::TrainEpoch => match event {
                Event::Failed(e) => {
                    self.phase = Phase::Failed;
                    self.failure = Some(e);
                },
                Event::BatchTrained => {
                    self.batches = self.batches + 1;
                },
                Event::TrainExhausted => {
                    self.phase = Phase::EvalEpoch;
                    self.correct = 0;
                    self.total = 0;
                },
                _ => {},
            },
            Phase::EvalEpoch => match event {
                Event::Failed(e) => {
                    self.phase = Phase::Failed;
                    self.failure = Some(e);
                },
                Event::BatchEvaluated { predictions, targets } => {
                    let correct = count_correct(&predictions, &targets);
                    self.correct = self.correct + correct;
                    self.total = self.total + predictions.len();
                },
                Event::TestExhausted => {
                    self.phase = Phase::Report;
                },
                _ => {},
            },
            Phase::Report => match event {
                Event::Failed(e) => {
                    self.phase = Phase::Failed;
                    self.failure = Some(e);
                },
                Event::Reported => {
                    if self.epoch < self.config.epochs {
                        self.phase = Phase::TrainEpoch;
                        self.epoch = self.epoch + 1;
                        self.batches = 0;
                        self.correct = 0;
                        self.total = 0;
                    } else {
                        self.phase = Phase::PersistFile;
                    }
                },
                _ => {},
            },
            Phase::PersistFile => match event {
                Event::Failed(e) => {
                    self.phase = Phase::Failed;
                    self.failure = Some(e);
                },
                Event::FileWritten => {
                    self.phase = Phase::PersistBlob;
                },
                _ => {},
            },
            Phase::PersistBlob => match event {
                Event::Failed(e) => {
                    self.phase = Phase::Failed;
                    self.failure = Some(e);
                },
                Event::BlobWritten => {
                    self.phase = Phase::Done;
                },
                _ => {},
            },
        }
    }

    /// The figures of the current epoch.
    pub fn report(&self) -> (r: EpochReport)
        ensures
            r == (EpochReport {
                epoch: self.epoch,
                batches: self.batches,
                correct: self.correct,
                total: self.total,
            }),
    {
        EpochReport {
            epoch: self.epoch,
            batches: self.batches,
            correct: self.correct,
            total: self.total,
        }
    }
}

/// The event by which the driver reports that the checkpoint at `path` could
/// not be written.
pub fn write_failed(path: &str, reason: &str) -> (event: Event)
    ensures
        event matches Event::Failed(e) && e.is(
            ErrorKind::Checkpoint,
            write_failure_message(path@, reason@),
        ),
{
    let message = String::from_str("checkpoint cannot be written: ").concat(path).concat(
        ": ",
    ).concat(reason);
    Event::Failed(Error { kind: ErrorKind::Checkpoint, message })
}

/// Starts a training run. The dataset name is checked before anything is
/// built: only the digit dataset can be trained, the natural-image dataset is
/// known but not implemented, and every other name is unsupported.
pub fn train(cfg: TrainConfig) -> (r: Result<Trainer, Error>)
    ensures
        match spec_train(cfg.dataset_config.name@) {
            Ok(_) => r matches Ok(t) && t == (Trainer {
                config: cfg,
                phase: Phase::Init,
                epoch: 0,
                batches: 0,
                correct: 0,
                total: 0,
                failure: None,
            }) && t.well_formed(),
            Err((kind, message)) => r matches Err(e) && e.is(kind, message),
        },
{
    let mnist = String::from_str("mnist");
    let cifar10 = String::from_str("cifar10");
    if cfg.dataset_config.name == mnist {
        Ok(
            Trainer {
                config: cfg,
                phase: Phase::Init,
                epoch: 0,
                batches: 0,
                correct: 0,
                total: 0,
                failure: None,
            },
        )
    } else if cfg.dataset_config.name == cifar10 {
        let e = Error::new(
            ErrorKind::NotImplemented,
            "CIFAR-10データセットはまだ実装されていません。後でカスタムデータローダーを作成します。",
            "",
        );
        proof {
            reveal_strlit("");
        }
        Err(e)
    } else {
        Err(
            Error::new(
                ErrorKind::UnsupportedDataset,
                "未対応のデータセット: ",
                cfg.dataset_config.name.as_str(),
            ),
        )
    }
}

/// Once a run has ended, no event changes it.
pub proof fn lemma_terminal_is_absorbing(t: Trainer, event: Event)
    requires
        t.is_terminal(),
    ensures
        t.spec_step(event) == t,
{
}

/// A run ends well only by writing the blob, the blob is due only after the
/// file was written, and the file is due only after the last epoch was
/// reported, or at once when no epoch was asked for.
pub proof fn lemma_persist_order(t: Trainer, event: Event)
    requires
        t.well_formed(),
    ensures
        t.spec_step(event).phase == Phase::Done && t.phase != Phase::Done ==> t.phase
            == Phase::PersistBlob && event == Event::BlobWritten,
        t.spec_step(event).phase == Phase::PersistBlob && t.phase != Phase::PersistBlob ==> t.phase
            == Phase::PersistFile && event == Event::FileWritten,
        t.spec_step(event).phase == Phase::PersistFile && t.phase != Phase::PersistFile ==> (
        t.phase == Phase::Report && event == Event::Reported && t.epoch == t.config.epochs) || (
        t.phase == Phase::Init && event == Event::Prepared && t.config.epochs == 0),
{
}

/// Within an epoch, training comes before evaluation and evaluation before
/// the report; a new epoch starts only from the report of the one before it,
/// and the first only from `Init`.
pub proof fn lemma_epoch_order(t: Trainer, event: Event)
    requires
        t.well_formed(),
    ensures
        t.spec_step(event).phase == Phase::EvalEpoch && t.phase != Phase::EvalEpoch ==> t.phase
            == Phase::TrainEpoch && event == Event::TrainExhausted && t.spec_step(event).epoch
            == t.epoch,
        t.spec_step(event).phase == Phase::Report && t.phase != Phase::Report ==> t.phase
            == Phase::EvalEpoch && event == Event::TestExhausted && t.spec_step(event).epoch
            == t.epoch,
        t.spec_step(event).phase == Phase::TrainEpoch && t.phase != Phase::TrainEpoch ==> (t.phase
            == Phase::Report && t.spec_step(event).epoch == t.epoch + 1) || (t.phase == Phase::Init
            && t.spec_step(event).epoch == 1),
        t.spec_step(event).epoch == t.epoch || t.spec_step(event).epoch == t.epoch + 1,
{
}

} // verus!
