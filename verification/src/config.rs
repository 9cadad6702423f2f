//! Declarative per-dataset configuration.
//!
//! A configuration names the dataset, fixes the shape of its images and drives
//! every other component. Real-valued settings are carried as IEEE-754 bit
//! patterns, so that the whole library stays within integer arithmetic; the
//! numeric engine turns them back into numbers.

use crate::error::{Error, ErrorKind};
use vstd::prelude::*;

verus! {

/// Which architecture to build, and the widths of its layers.
#[derive(Debug, Clone, PartialEq, Eq)]
pub struct ModelConfig {
    pub model_type: String,
    pub conv1_out: Option<usize>,
    pub conv2_out: Option<usize>,
    pub conv3_out: Option<usize>,
    pub fc1_out: usize,
    pub fc2_out: Option<usize>,
}

/// A mean or a standard deviation: one value for a single-channel image, or
/// one per channel for a three-channel image. Each value is the bit pattern of
/// a single-precision number.
#[derive(Debug, Clone, Copy, PartialEq, Eq)]
pub enum NormalizationValue {
    Single(u32),
    Triple([u32; 3]),
}

impl NormalizationValue {
    /// The number of channels that this value covers.
    pub open spec fn spec_arity(&self) -> nat {
        match self {
            NormalizationValue::Single(_) => 1,
            NormalizationValue::Triple(_) => 3,
        }
    }

    /// The bit pattern that applies to `channel`.
    pub open spec fn spec_channel(&self, channel: int) -> u32
        recommends
            0 <= channel < self.spec_arity(),
    {
        match self {
            NormalizationValue::Single(v) => *v,
            NormalizationValue::Triple(v) => v[channel],
        }
    }

    /// The number of channels that this value covers.
    pub fn arity(&self) -> (n: usize)
        ensures
            n == self.spec_arity(),
    {
        match self {
            NormalizationValue::Single(_) => 1,
            NormalizationValue::Triple(_) => 3,
        }
    }

    /// The bit pattern that applies to `channel`.
    pub fn channel(&self, channel: usize) -> (bits: u32)
        requires
            channel < self.spec_arity(),
        ensures
            bits == self.spec_channel(channel as int),
    {
        match self {
            NormalizationValue::Single(v) => *v,
            NormalizationValue::Triple(v) => v[channel],
        }
    }
}

/// The affine transform applied to every scaled pixel: subtract the mean, then
/// divide by the standard deviation.
#[derive(Debug, Clone, Copy, PartialEq, Eq)]
pub struct NormalizationConfig {
    pub mean: NormalizationValue,
    pub std: NormalizationValue,
}

impl NormalizationConfig {
    /// True when both the mean and the deviation cover exactly `channels`
    /// channels.
    pub open spec fn spec_fits(&self, channels: nat) -> bool {
        self.mean.spec_arity() == channels && self.std.spec_arity() == channels
    }

    /// Decides whether both values cover exactly `channels` channels.
    pub fn fits(&self, channels: usize) -> (ok: bool)
        ensures
            ok == self.spec_fits(channels as nat),
    {
        self.mean.arity() == channels && self.std.arity() == channels
    }
}

/// Training hyperparameters. `learning_rate` is the bit pattern of a
/// double-precision number.
#[derive(Debug, Clone, Copy, PartialEq, Eq)]
pub struct TrainingConfig {
    pub epochs: u32,
    pub batch_size: usize,
    pub learning_rate: u64,
    pub normalization: NormalizationConfig,
}

/// Locations of the files that a training run writes.
#[derive(Debug, Clone, PartialEq, Eq)]
pub struct ArtifactsConfig {
    pub dir: String,
    pub model_file: String,
    pub model_bin: String,
    pub wasm_bg: String,
    pub wasm_js: String,
}

/// Everything that is known about one dataset domain.
#[derive(Debug, Clone, PartialEq, Eq)]
pub struct DatasetConfig {
    pub name: String,
    pub input_channels: usize,
    pub input_size: [usize; 2],
    pub num_classes: usize,
    pub class_names: Vec<String>,
    pub model: ModelConfig,
    pub training: TrainingConfig,
    pub artifacts: ArtifactsConfig,
}

/// What became of the attempt to read and parse a configuration file.
pub enum ConfigSource {
    /// The file could not be read; the text says why.
    Unreadable(String),
    /// The file was read but is not a configuration; the text says why.
    Malformed(String),
    /// The file was read and parsed.
    Parsed(DatasetConfig),
}

/// Joins a directory and a file name with a single `/`.
pub open spec fn spec_join(dir: Seq<char>, file: Seq<char>) -> Seq<char> {
    dir + seq!['/'] + file
}

/// The location of the configuration file of a dataset.
pub open spec fn spec_config_path(dataset_name: Seq<char>) -> Seq<char> {
    "configs/"@ + dataset_name + ".json"@
}

/// The text of the failure reported when the class names do not match the
/// class count.
pub open spec fn class_names_message(name: Seq<char>) -> Seq<char> {
    "class_names must hold exactly num_classes names: "@ + name
}

/// The text of the failure reported when the normalization does not match the
/// channel count.
pub open spec fn normalization_message(name: Seq<char>) -> Seq<char> {
    "normalization must hold one value per input channel: "@ + name
}

/// The text of the failure reported for a file that could not be read.
pub open spec fn unreadable_message(path: Seq<char>, reason: Seq<char>) -> Seq<char> {
    "設定ファイル読み込み失敗 "@ + path + ": "@ + reason
}

/// The text of the failure reported for a file that could not be parsed.
pub open spec fn malformed_message(path: Seq<char>, reason: Seq<char>) -> Seq<char> {
    "設定ファイル解析失敗 "@ + path + ": "@ + reason
}

/// The location of the configuration file of a dataset.
pub fn config_path(dataset_name: &str) -> (path: String)
    ensures
        path@ == spec_config_path(dataset_name@),
{
    String::from_str("configs/").concat(dataset_name).concat(".json")
}

fn join_path(dir: &String, file: &String) -> (path: String)
    ensures
        path@ == spec_join(dir@, file@),
{
    proof {
        reveal_strlit("/");
    }
    dir.clone().concat("/").concat(file.as_str())
}

impl DatasetConfig {
    /// The invariant of a usable configuration: one name per class, and a
    /// normalization with one value per input channel.
    pub open spec fn well_formed(&self) -> bool {
        &&& self.class_names@.len() == self.num_classes
        &&& self.training.normalization.spec_fits(self.input_channels as nat)
    }

    /// What checking the invariant answers, where a failure names
    /// `resource`. The class names are checked first.
    pub open spec fn spec_check(&self, resource: Seq<char>) -> Result<(), (ErrorKind, Seq<char>)> {
        if self.class_names@.len() != self.num_classes {
            Err((ErrorKind::Config, class_names_message(resource)))
        } else if !self.training.normalization.spec_fits(self.input_channels as nat) {
            Err((ErrorKind::Config, normalization_message(resource)))
        } else {
            Ok(())
        }
    }

    /// What `validate` answers for this configuration: a failure names the
    /// dataset.
    pub open spec fn spec_validate(&self) -> Result<(), (ErrorKind, Seq<char>)> {
        self.spec_check(self.name@)
    }

    fn check(&self, resource: &str) -> (r: Result<(), Error>)
        ensures
            r is Ok <==> self.well_formed(),
            match (r, self.spec_check(resource@)) {
                (Ok(_), Ok(_)) => true,
                (Err(e), Err((kind, message))) => e.is(kind, message),
                _ => false,
            },
    {
        if self.class_names.len() != self.num_classes {
            Err(
                Error::new(
                    ErrorKind::Config,
                    "class_names must hold exactly num_classes names: ",
                    resource,
                ),
            )
        } else if !self.training.normalization.fits(self.input_channels) {
            Err(
                Error::new(
                    ErrorKind::Config,
                    "normalization must hold one value per input channel: ",
                    resource,
                ),
            )
        } else {
            Ok(())
        }
    }

    /// Checks the invariant. The class names are checked first.
    pub fn validate(&self) -> (r: Result<(), Error>)
        ensures
            r is Ok <==> self.well_formed(),
            match (r, self.spec_validate()) {
                (Ok(_), Ok(_)) => true,
                (Err(e), Err((kind, message))) => e.is(kind, message),
                _ => false,
            },
    {
        self.check(self.name.as_str())
    }

    /// Builds a configuration from its parts, and fails unless the result is
    /// well formed.
    pub fn new(
        name: String,
        input_channels: usize,
        input_size: [usize; 2],
        num_classes: usize,
        class_names: Vec<String>,
        model: ModelConfig,
        training: TrainingConfig,
        artifacts: ArtifactsConfig,
    ) -> (r: Result<DatasetConfig, Error>)
        ensures
            r is Ok <==> class_names@.len() == num_classes && training.normalization.spec_fits(
                input_channels as nat,
            ),
            r matches Ok(c) ==> c.well_formed() && c == (DatasetConfig {
                name,
                input_channels,
                input_size,
                num_classes,
                class_names,
                model,
                training,
                artifacts,
            }),
            r matches Err(e) ==> e.kind == ErrorKind::Config && e.message@ == (
            if class_names@.len() != num_classes {
                class_names_message(name@)
            } else {
                normalization_message(name@)
            }),
    {
        let config = DatasetConfig {
            name,
            input_channels,
            input_size,
            num_classes,
            class_names,
            model,
            training,
            artifacts,
        };
        match config.validate() {
            Ok(_) => Ok(config),
            Err(e) => Err(e),
        }
    }

    /// Turns the outcome of reading the configuration file of `dataset_name`
    /// into a configuration. A parsed configuration is returned only if it is
    /// well formed. Every failure is a configuration failure that names the
    /// file: one that could not be read, one that could not be parsed, and
    /// one whose configuration is not well formed.
    pub fn load(dataset_name: &str, source: ConfigSource) -> (r: Result<DatasetConfig, Error>)
        ensures
            match source {
                ConfigSource::Unreadable(reason) => r matches Err(e) && e.is(
                    ErrorKind::Config,
                    unreadable_message(spec_config_path(dataset_name@), reason@),
                ),
                ConfigSource::Malformed(reason) => r matches Err(e) && e.is(
                    ErrorKind::Config,
                    malformed_message(spec_config_path(dataset_name@), reason@),
                ),
                ConfigSource::Parsed(config) => match config.spec_check(
                    spec_config_path(dataset_name@),
                ) {
                    Ok(_) => r == Ok::<DatasetConfig, Error>(config) && config.well_formed(),
                    Err((kind, message)) => r matches Err(e) && e.is(kind, message),
                },
            },
    {
        match source {
            ConfigSource::Unreadable(reason) => {
                let path = config_path(dataset_name);
                let resource = path.concat(": ").concat(reason.as_str());
                let e = Error::new(ErrorKind::Config, "設定ファイル読み込み失敗 ", resource.as_str());
                assert(e.message@ =~= unreadable_message(
                    spec_config_path(dataset_name@),
                    reason@,
                ));
                Err(e)
            },
            ConfigSource::Malformed(reason) => {
                let path = config_path(dataset_name);
                let resource = path.concat(": ").concat(reason.as_str());
                let e = Error::new(ErrorKind::Config, "設定ファイル解析失敗 ", resource.as_str());
                assert(e.message@ =~= malformed_message(
                    spec_config_path(dataset_name@),
                    reason@,
                ));
                Err(e)
            },
            ConfigSource::Parsed(config) => {
                let path = config_path(dataset_name);
                match config.check(path.as_str()) {
                    Ok(_) => Ok(config),
                    Err(e) => Err(e),
                }
            },
        }
    }

    /// Where the structured checkpoint file is written.
    pub fn get_model_path(&self) -> (path: String)
        ensures
            path@ == spec_join(self.artifacts.dir@, self.artifacts.model_file@),
    {
        join_path(&self.artifacts.dir, &self.artifacts.model_file)
    }

    /// Where the checkpoint blob is written.
    pub fn get_model_bin_path(&self) -> (path: String)
        ensures
            path@ == spec_join(self.artifacts.dir@, self.artifacts.model_bin@),
    {
        join_path(&self.artifacts.dir, &self.artifacts.model_bin)
    }
}

} // verus!
