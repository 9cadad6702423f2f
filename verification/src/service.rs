//! The inference service of an interactive host.
//!
//! A service belongs to one dataset domain. It is built from the
//! configuration of that domain and holds no model until it is loaded.
//! Loading is idempotent, and an inference loads the model first if it has
//! to. Decoding the checkpoint, the forward pass and what follows it are done
//! by the host; the service decides whether they may be done and on what
//! input. Two services never share anything.

use crate::config::{DatasetConfig, NormalizationConfig};
use crate::error::{Error, ErrorKind};
use crate::infer::text_views;
use crate::model::{
    accept_checkpoint,
    select_model,
    shape_message,
    spec_accept,
    spec_select,
    Checkpoint,
    LeNet,
    ModelInstance,
    ModelTrait,
};
use crate::shape::checked_volume;
use vstd::prelude::*;

verus! {

/// The inference service of one dataset domain.
#[derive(Debug, Clone, PartialEq, Eq)]
pub struct ModelService {
    /// The model, once loaded.
    pub model: Option<ModelInstance>,
    /// The configuration of the domain.
    pub config: DatasetConfig,
}

/// The service of the digit domain.
pub type MnistModel = ModelService;

/// The service of the natural-image domain.
pub type Cifar10Model = ModelService;

/// What the host has to run for one inference.
#[derive(Debug, Clone, Copy, PartialEq, Eq)]
pub struct InferenceRequest {
    /// The shape into which the flat buffer is taken: one sample, channels,
    /// height, width.
    pub dims: [usize; 4],
    /// The normalization to apply to the scaled values.
    pub normalization: NormalizationConfig,
    /// The number of logits that the forward pass gives.
    pub classes: usize,
    /// Whether the logits are turned into probabilities; if not, only the
    /// index of the largest one is wanted.
    pub softmax: bool,
}

/// The words that open the failure that a service reports for a checkpoint.
pub open spec fn service_prefix(name: Seq<char>) -> Seq<char> {
    name + "モデルのロードに失敗: "@
}

/// The text of the failure reported when a model is needed but none is
/// loaded and no checkpoint is at hand.
pub open spec fn unloaded_message(name: Seq<char>) -> Seq<char> {
    "model is not loaded: "@ + name
}

/// The text of the failure reported for a buffer of the wrong length.
pub open spec fn buffer_length_message(name: Seq<char>) -> Seq<char> {
    "input does not hold channels * height * width values: "@ + name
}

/// The name returned for a class index that has none.
pub open spec fn unknown_class() -> Seq<char> {
    "unknown"@
}

/// The text of the failure reported for the dataset whose service does not
/// exist yet.
pub open spec fn cifar_pending_message() -> Seq<char> {
    "CIFAR-10はまだ実装されていません"@
}

/// The text of the failure reported for an embedded configuration that
/// cannot be parsed.
pub open spec fn embedded_config_message(reason: Seq<char>) -> Seq<char> {
    "MNIST設定の解析に失敗: "@ + reason
}

/// The words that open the failure reported for the embedded checkpoint of
/// the digit domain.
pub open spec fn mnist_prefix() -> Seq<char> {
    "MNISTモデルのロードに失敗: "@
}

/// What loading answers for a service that holds no model: the model that
/// the configuration asks for, if the checkpoint fits it.
pub open spec fn spec_load(config: DatasetConfig, checkpoint: Checkpoint) -> Result<
    ModelInstance,
    (ErrorKind, Seq<char>),
> {
    match spec_select(config) {
        Err(failure) => Err(failure),
        Ok(model) => match spec_accept(model, checkpoint, service_prefix(config.name@)) {
            Err(failure) => Err(failure),
            Ok(_) => Ok(model),
        },
    }
}

/// What an inference on a loaded model answers for a buffer of a given
/// length.
pub open spec fn spec_request(
    model: ModelInstance,
    config: DatasetConfig,
    input_len: nat,
    softmax: bool,
) -> Result<InferenceRequest, (ErrorKind, Seq<char>)> {
    let dims = [1usize, config.input_channels, config.input_size[0], config.input_size[1]];
    if input_len != config.input_channels * config.input_size[0] * config.input_size[1] {
        Err((ErrorKind::Inference, buffer_length_message(config.name@)))
    } else {
        match model.spec_forward(dims) {
            None => Err((ErrorKind::Inference, shape_message())),
            Some(out) => Ok(
                InferenceRequest {
                    dims,
                    normalization: config.training.normalization,
                    classes: out.1,
                    softmax,
                },
            ),
        }
    }
}

/// What an inference answers, and the model that the service holds after it.
/// A loaded service keeps its model. One that is not loaded is loaded from
/// the checkpoint first; without a checkpoint, or with one that is refused,
/// it stays without a model and the inference fails.
pub open spec fn spec_inference(
    service: ModelService,
    checkpoint: Option<&Checkpoint>,
    input_len: nat,
    softmax: bool,
) -> (Option<ModelInstance>, Result<InferenceRequest, (ErrorKind, Seq<char>)>) {
    match service.model {
        Some(model) => (Some(model), spec_request(model, service.config, input_len, softmax)),
        None => match checkpoint {
            None => (
                None,
                Err((ErrorKind::Inference, unloaded_message(service.config.name@))),
            ),
            Some(c) => match spec_load(service.config, *c) {
                Err(failure) => (None, Err(failure)),
                Ok(model) => (
                    Some(model),
                    spec_request(model, service.config, input_len, softmax),
                ),
            },
        },
    }
}

/// The class that a list of predicted indices stands for: the first index,
/// or zero if there is none, taken as an unsigned number of thirty-two bits.
pub open spec fn spec_top1(predictions: Seq<i32>) -> u32 {
    if predictions.len() == 0 {
        0
    } else if predictions[0] >= 0 {
        predictions[0] as u32
    } else {
        (predictions[0] + 0x1_0000_0000) as u32
    }
}

/// The class that a list of predicted indices stands for.
pub fn top1_class(predictions: &Vec<i32>) -> (class_id: u32)
    ensures
        class_id == spec_top1(predictions@),
{
    if predictions.len() == 0 {
        0
    } else {
        let index = predictions[0];
        if index >= 0 {
            index as u32
        } else {
            ((index as i64) + 0x1_0000_0000) as u32
        }
    }
}

impl ModelService {
    /// A service is well formed when the model it holds, if any, is the one
    /// that its configuration asks for.
    pub open spec fn well_formed(&self) -> bool {
        self.model matches Some(model) ==> spec_select(self.config) == Ok::<
            ModelInstance,
            (ErrorKind, Seq<char>),
        >(model)
    }

    /// Builds the service of a domain. It holds no model yet.
    pub fn new(config: DatasetConfig) -> (service: ModelService)
        ensures
            service.model is None,
            service.config == config,
            service.well_formed(),
    {
        ModelService { model: None, config }
    }

    /// True when the model is loaded.
    pub fn is_loaded(&self) -> (loaded: bool)
        ensures
            loaded == self.model is Some,
    {
        self.model.is_some()
    }

    /// Loads the model from a decoded checkpoint. A service that is loaded
    /// already stays as it is, whatever the checkpoint. A checkpoint that
    /// does not fit the architecture of the configuration is refused and
    /// leaves the service without a model.
    pub fn load(&mut self, checkpoint: &Checkpoint) -> (r: Result<(), Error>)
        ensures
            old(self).well_formed() ==> final(self).well_formed(),
            final(self).config == old(self).config,
            old(self).model is Some ==> r is Ok && final(self).model == old(self).model,
            old(self).model is None ==> match spec_load(old(self).config, *checkpoint) {
                Ok(model) => r is Ok && final(self).model == Some(model),
                Err((kind, message)) => r matches Err(e) && e.is(kind, message)
                    && final(self).model is None,
            },
    {
        if self.model.is_some() {
            return Ok(());
        }
        let model = match select_model(&self.config) {
            Ok(model) => model,
            Err(e) => {
                return Err(e);
            },
        };
        let prefix = self.config.name.clone().concat("モデルのロードに失敗: ");
        match accept_checkpoint(&model, checkpoint, prefix.as_str()) {
            Ok(_) => {
                self.model = Some(model);
                Ok(())
            },
            Err(e) => Err(e),
        }
    }

    fn request(&mut self, input_len: usize, checkpoint: Option<&Checkpoint>, softmax: bool) -> (r:
        Result<InferenceRequest, Error>)
        ensures
            old(self).well_formed() ==> final(self).well_formed(),
            final(self).config == old(self).config,
            final(self).model == spec_inference(*old(self), checkpoint, input_len as nat, softmax).0,
            match spec_inference(*old(self), checkpoint, input_len as nat, softmax).1 {
                Ok(request) => r == Ok::<InferenceRequest, Error>(request),
                Err((kind, message)) => r matches Err(e) && e.is(kind, message),
            },
    {
        if self.model.is_none() {
            match checkpoint {
                None => {
                    return Err(
                        Error::new(
                            ErrorKind::Inference,
                            "model is not loaded: ",
                            self.config.name.as_str(),
                        ),
                    );
                },
                Some(c) => match self.load(c) {
                    Ok(_) => {},
                    Err(e) => {
                        return Err(e);
                    },
                },
            }
        }
        let model = match self.model {
            Some(model) => model,
            None => {
                return Err(
                    Error::new(
                        ErrorKind::Inference,
                        "model is not loaded: ",
                        self.config.name.as_str(),
                    ),
                );
            },
        };
        let channels = self.config.input_channels;
        let height = self.config.input_size[0];
        let width = self.config.input_size[1];
        if checked_volume(channels, height, width) != Some(input_len) {
            return Err(
                Error::new(
                    ErrorKind::Inference,
                    "input does not hold channels * height * width values: ",
                    self.config.name.as_str(),
                ),
            );
        }
        let dims = [1, channels, height, width];
        match model.forward(dims) {
            Err(e) => Err(e),
            Ok(out) => {
                Ok(
                    InferenceRequest {
                        dims,
                        normalization: self.config.training.normalization,
                        classes: out[1],
                        softmax,
                    },
                )
            },
        }
    }

    /// Prepares an inference that returns the probability of every class, in
    /// the order of the class indices. The model is loaded first if it has to
    /// be, from `checkpoint`; the buffer of `input_len` values must hold one
    /// image of the configured shape.
    pub fn inference(&mut self, input_len: usize, checkpoint: Option<&Checkpoint>) -> (r: Result<
        InferenceRequest,
        Error,
    >)
        ensures
            old(self).well_formed() ==> final(self).well_formed(),
            final(self).config == old(self).config,
            final(self).model == spec_inference(*old(self), checkpoint, input_len as nat, true).0,
            match spec_inference(*old(self), checkpoint, input_len as nat, true).1 {
                Ok(request) => r == Ok::<InferenceRequest, Error>(request),
                Err((kind, message)) => r matches Err(e) && e.is(kind, message),
            },
    {
        self.request(input_len, checkpoint, true)
    }

    /// Prepares an inference that returns only the index of the most likely
    /// class. It differs from `inference` in nothing but that.
    pub fn inference_top1(&mut self, input_len: usize, checkpoint: Option<&Checkpoint>) -> (r:
        Result<InferenceRequest, Error>)
        ensures
            old(self).well_formed() ==> final(self).well_formed(),
            final(self).config == old(self).config,
            final(self).model == spec_inference(*old(self), checkpoint, input_len as nat, false).0,
            match spec_inference(*old(self), checkpoint, input_len as nat, false).1 {
                Ok(request) => r == Ok::<InferenceRequest, Error>(request),
                Err((kind, message)) => r matches Err(e) && e.is(kind, message),
            },
    {
        self.request(input_len, checkpoint, false)
    }

    /// The name of a class, or `unknown` for an index that has none.
    pub fn get_class_name(&self, class_id: u32) -> (name: String)
        ensures
            name@ == if class_id < self.config.class_names@.len() {
                self.config.class_names@[class_id as int]@
            } else {
                unknown_class()
            },
    {
        if (class_id as usize) < self.config.class_names.len() {
            self.config.class_names[class_id as usize].clone()
        } else {
            String::from_str("unknown")
        }
    }

    /// The names of all classes, in the order of the class indices.
    pub fn get_class_names(&self) -> (names: Vec<String>)
        ensures
            text_views(names@) == text_views(self.config.class_names@),
    {
        let mut names: Vec<String> = Vec::new();
        let mut i: usize = 0;
        while i < self.config.class_names.len()
            invariant
                i <= self.config.class_names@.len(),
                names@.len() == i,
                forall|k: int|
                    0 <= k < i ==> (#[trigger] names@[k])@ == self.config.class_names@[k]@,
            decreases self.config.class_names@.len() - i,
        {
            names.push(self.config.class_names[i].clone());
            i = i + 1;
        }
        names
    }
}

/// The architecture into which the embedded checkpoint of a dataset is
/// decoded. Only the digit dataset has one: the shallow architecture,
/// whatever tag its configuration carries.
pub open spec fn spec_plan(dataset_name: Seq<char>, config: Result<DatasetConfig, String>) -> Result<
    ModelInstance,
    (ErrorKind, Seq<char>),
> {
    if dataset_name == "mnist"@ {
        match config {
            Err(reason) => Err((ErrorKind::Config, embedded_config_message(reason@))),
            Ok(config) => if !LeNet::spec_fits(config) {
                Err((ErrorKind::Config, crate::model::too_wide_message(config.name@)))
            } else {
                Ok(ModelInstance::Mnist(LeNet::spec_new(config)))
            },
        }
    } else if dataset_name == "cifar10"@ {
        Err((ErrorKind::NotImplemented, cifar_pending_message()))
    } else {
        Err(
            (
                ErrorKind::UnsupportedDataset,
                crate::train::unsupported_dataset_message(dataset_name),
            ),
        )
    }
}

/// What building and loading the model of a dataset answers: the
/// architecture of the dataset, if the checkpoint fits it.
pub open spec fn spec_build(
    dataset_name: Seq<char>,
    config: Result<DatasetConfig, String>,
    checkpoint: Checkpoint,
) -> Result<ModelInstance, (ErrorKind, Seq<char>)> {
    match spec_plan(dataset_name, config) {
        Err(failure) => Err(failure),
        Ok(model) => match spec_accept(model, checkpoint, mnist_prefix()) {
            Err(failure) => Err(failure),
            Ok(_) => Ok(model),
        },
    }
}

/// Chooses the architecture into which the embedded checkpoint of a dataset
/// is decoded. `config` is the outcome of parsing the embedded
/// configuration, with the reason if it could not be parsed.
pub fn plan_model(dataset_name: &str, config: &Result<DatasetConfig, String>) -> (r: Result<
    ModelInstance,
    Error,
>)
    ensures
        match spec_plan(dataset_name@, *config) {
            Ok(model) => r == Ok::<ModelInstance, Error>(model),
            Err((kind, message)) => r matches Err(e) && e.is(kind, message),
        },
{
    let name = String::from_str(dataset_name);
    let mnist = String::from_str("mnist");
    let cifar10 = String::from_str("cifar10");
    if name == mnist {
        match config {
            Err(reason) => Err(
                Error::new(ErrorKind::Config, "MNIST設定の解析に失敗: ", reason.as_str()),
            ),
            Ok(config) => {
                if !LeNet::fits(config) {
                    return Err(
                        Error::new(
                            ErrorKind::Config,
                            "layer widths do not fit the machine word: ",
                            config.name.as_str(),
                        ),
                    );
                }
                Ok(ModelInstance::Mnist(LeNet::new(config)))
            },
        }
    } else if name == cifar10 {
        let e = Error::new(ErrorKind::NotImplemented, "CIFAR-10はまだ実装されていません", "");
        proof {
            reveal_strlit("");
        }
        Err(e)
    } else {
        Err(Error::new(ErrorKind::UnsupportedDataset, "未対応のデータセット: ", dataset_name))
    }
}

/// Builds the model of a dataset and checks the embedded checkpoint against
/// it. `config` is the outcome of parsing the embedded configuration, with
/// the reason if it could not be parsed.
pub fn build_and_load_model(
    dataset_name: &str,
    config: Result<DatasetConfig, String>,
    checkpoint: &Checkpoint,
) -> (r: Result<(ModelInstance, DatasetConfig), Error>)
    ensures
        match spec_build(dataset_name@, config, *checkpoint) {
            Ok(model) => r matches Ok(pair) && pair.0 == model && config == Ok::<
                DatasetConfig,
                String,
            >(pair.1),
            Err((kind, message)) => r matches Err(e) && e.is(kind, message),
        },
{
    let model = match plan_model(dataset_name, &config) {
        Ok(model) => model,
        Err(e) => {
            return Err(e);
        },
    };
    match config {
        Ok(config) => match accept_checkpoint(&model, checkpoint, "MNISTモデルのロードに失敗: ") {
            Ok(_) => Ok((model, config)),
            Err(e) => Err(e),
        },
        Err(reason) => Err(
            Error::new(ErrorKind::Config, "MNIST設定の解析に失敗: ", reason.as_str()),
        ),
    }
}

/// Builds the model of the digit dataset, where that is known to succeed.
pub fn build_and_load_model_legacy(config: &DatasetConfig, checkpoint: &Checkpoint) -> (model:
    LeNet)
    requires
        spec_build("mnist"@, Ok(*config), *checkpoint) is Ok,
    ensures
        spec_build("mnist"@, Ok(*config), *checkpoint) == Ok::<
            ModelInstance,
            (ErrorKind, Seq<char>),
        >(ModelInstance::Mnist(model)),
{
    LeNet::new(config)
}

} // verus!
