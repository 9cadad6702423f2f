//! The two architectures, as far as their shapes go.
//!
//! An architecture is built from a configuration alone. What is kept here is
//! its plan: the layers with their widths. The plan says which parameter
//! tensors a checkpoint has to hold and what shape the logits have for a given
//! input; the numeric engine allocates the parameters and does the arithmetic.
//!
//! A convolution moves over its input with stride one; a pooling layer takes
//! the maximum over windows of two by two with stride two.

use crate::config::DatasetConfig;
use crate::error::{Error, ErrorKind};
use crate::shape::checked_volume;
use vstd::prelude::*;

verus! {

/// A convolution with a square kernel and symmetric padding.
#[derive(Debug, Clone, Copy, PartialEq, Eq, Structural)]
pub struct ConvLayer {
    pub in_channels: usize,
    pub out_channels: usize,
    pub kernel: usize,
    pub padding: usize,
}

/// A fully connected layer.
#[derive(Debug, Clone, Copy, PartialEq, Eq, Structural)]
pub struct LinearLayer {
    pub in_features: usize,
    pub out_features: usize,
}

/// The shallow architecture: two stages of convolution, rectifier and
/// pooling, one hidden fully connected layer and the output layer.
#[derive(Debug, Clone, Copy, PartialEq, Eq, Structural)]
pub struct LeNet {
    pub conv1: ConvLayer,
    pub conv2: ConvLayer,
    pub fc1: LinearLayer,
    pub fc2: LinearLayer,
}

/// The deep architecture: three stages of convolution, rectifier and pooling,
/// two hidden fully connected layers with dropout, and the output layer.
#[derive(Debug, Clone, Copy, PartialEq, Eq, Structural)]
pub struct CifarNet {
    pub conv1: ConvLayer,
    pub conv2: ConvLayer,
    pub conv3: ConvLayer,
    pub fc1: LinearLayer,
    pub fc2: LinearLayer,
    pub fc3: LinearLayer,
}

/// One of the two architectures.
#[derive(Debug, Clone, Copy, PartialEq, Eq, Structural)]
pub enum ModelInstance {
    Mnist(LeNet),
    Cifar10(CifarNet),
}

/// The width that an optional setting stands for.
pub open spec fn width_or(setting: Option<usize>, default: usize) -> usize {
    match setting {
        Some(w) => w,
        None => default,
    }
}

/// A convolution is accepted when its kernel is not empty and its padding
/// stays below half the kernel, so that it never enlarges its input.
pub open spec fn conv_accepted(layer: ConvLayer) -> bool {
    layer.kernel >= 1 && 2 * layer.padding < layer.kernel
}

/// The size of one side after a convolution, if the convolution is accepted
/// and the kernel fits the padded input.
pub open spec fn conv_side(side: int, layer: ConvLayer) -> Option<int> {
    if conv_accepted(layer) && side + 2 * layer.padding >= layer.kernel {
        Some(side + 2 * layer.padding - layer.kernel + 1)
    } else {
        None
    }
}

/// The size of one side after pooling, if a window fits the input.
pub open spec fn pool_side(side: int) -> Option<int> {
    if side >= 2 {
        Some(side / 2)
    } else {
        None
    }
}

/// The shape after one stage of convolution and pooling, written as channels,
/// height and width.
pub open spec fn stage_shape(shape: (int, int, int), layer: ConvLayer) -> Option<(int, int, int)> {
    if shape.0 != layer.in_channels {
        None
    } else {
        match (conv_side(shape.1, layer), conv_side(shape.2, layer)) {
            (Some(h), Some(w)) => match (pool_side(h), pool_side(w)) {
                (Some(ph), Some(pw)) => Some((layer.out_channels as int, ph, pw)),
                _ => None,
            },
            _ => None,
        }
    }
}

/// The width after a fully connected layer, if the input has the width that
/// the layer expects.
pub open spec fn linear_width(width: int, layer: LinearLayer) -> Option<int> {
    if width == layer.in_features {
        Some(layer.out_features as int)
    } else {
        None
    }
}

/// The text of the failure reported for an input that an architecture cannot
/// take.
pub open spec fn shape_message() -> Seq<char> {
    "input shape does not fit the architecture"@
}

/// The shapes of the parameters of a convolution: the weight, then the bias.
pub open spec fn conv_parameters(layer: ConvLayer) -> Seq<Seq<usize>> {
    seq![
        seq![layer.out_channels, layer.in_channels, layer.kernel, layer.kernel],
        seq![layer.out_channels],
    ]
}

/// The shapes of the parameters of a fully connected layer: the weight, then
/// the bias.
pub open spec fn linear_parameters(layer: LinearLayer) -> Seq<Seq<usize>> {
    seq![seq![layer.in_features, layer.out_features], seq![layer.out_features]]
}

fn conv_side_exec(side: usize, layer: &ConvLayer) -> (r: Option<usize>)
    ensures
        match conv_side(side as int, *layer) {
            Some(s) => r == Some(s as usize) && 0 <= s <= side,
            None => r is None,
        },
{
    if layer.kernel == 0 || layer.padding > (layer.kernel - 1) / 2 {
        return None;
    }
    let shrink: usize = layer.kernel - 1 - 2 * layer.padding;
    if side > shrink {
        Some(side - shrink)
    } else {
        None
    }
}

fn stage_exec(shape: (usize, usize, usize), layer: &ConvLayer) -> (r: Option<(usize, usize, usize)>)
    ensures
        match stage_shape((shape.0 as int, shape.1 as int, shape.2 as int), *layer) {
            Some(s) => r == Some((s.0 as usize, s.1 as usize, s.2 as usize)) && 0 <= s.1
                <= shape.1 && 0 <= s.2 <= shape.2 && s.0 == layer.out_channels,
            None => r is None,
        },
{
    if shape.0 != layer.in_channels {
        return None;
    }
    match (conv_side_exec(shape.1, layer), conv_side_exec(shape.2, layer)) {
        (Some(h), Some(w)) => if h >= 2 && w >= 2 {
            Some((layer.out_channels, h / 2, w / 2))
        } else {
            None
        },
        _ => None,
    }
}

/// The views of a list of shapes.
pub open spec fn shape_views(shapes: Seq<Vec<usize>>) -> Seq<Seq<usize>> {
    Seq::new(shapes.len(), |i: int| shapes[i]@)
}

fn dims_equal(a: &Vec<usize>, b: &Vec<usize>) -> (eq: bool)
    ensures
        eq == (a@ == b@),
{
    if a.len() != b.len() {
        return false;
    }
    let mut i: usize = 0;
    while i < a.len()
        invariant
            i <= a@.len(),
            a@.len() == b@.len(),
            forall|k: int| 0 <= k < i ==> a@[k] == b@[k],
        decreases a@.len() - i,
    {
        if a[i] != b[i] {
            return false;
        }
        i = i + 1;
    }
    assert(a@ =~= b@);
    true
}

/// Decides whether two lists of shapes are the same.
pub fn shapes_equal(a: &Vec<Vec<usize>>, b: &Vec<Vec<usize>>) -> (eq: bool)
    ensures
        eq == (shape_views(a@) == shape_views(b@)),
{
    if a.len() != b.len() {
        assert(shape_views(a@).len() != shape_views(b@).len());
        return false;
    }
    let mut i: usize = 0;
    while i < a.len()
        invariant
            i <= a@.len(),
            a@.len() == b@.len(),
            forall|k: int| 0 <= k < i ==> (#[trigger] a@[k])@ == b@[k]@,
        decreases a@.len() - i,
    {
        if !dims_equal(&a[i], &b[i]) {
            assert(shape_views(a@)[i as int] != shape_views(b@)[i as int]);
            return false;
        }
        i = i + 1;
    }
    assert(shape_views(a@) =~= shape_views(b@));
    true
}

fn push_conv(shapes: &mut Vec<Vec<usize>>, layer: &ConvLayer)
    ensures
        shape_views(final(shapes)@) == shape_views(old(shapes)@) + conv_parameters(*layer),
{
    let mut weight: Vec<usize> = Vec::new();
    weight.push(layer.out_channels);
    weight.push(layer.in_channels);
    weight.push(layer.kernel);
    weight.push(layer.kernel);
    let mut bias: Vec<usize> = Vec::new();
    bias.push(layer.out_channels);
    assert(weight@ =~= conv_parameters(*layer)[0]);
    shapes.push(weight);
    shapes.push(bias);
}

fn push_linear(shapes: &mut Vec<Vec<usize>>, layer: &LinearLayer)
    ensures
        shape_views(final(shapes)@) == shape_views(old(shapes)@) + linear_parameters(*layer),
{
    let mut weight: Vec<usize> = Vec::new();
    weight.push(layer.in_features);
    weight.push(layer.out_features);
    let mut bias: Vec<usize> = Vec::new();
    bias.push(layer.out_features);
    assert(weight@ =~= linear_parameters(*layer)[0]);
    shapes.push(weight);
    shapes.push(bias);
}

/// What the two architectures have in common: they turn a batch of images
/// into a batch of logits, and they are made of parameters.
pub trait ModelTrait {
    /// The shape of the logits for an input of shape `[B, C, H, W]`, written
    /// as batch size and number of classes, if the architecture can take the
    /// input.
    spec fn spec_forward(&self, dims: [usize; 4]) -> Option<(usize, usize)>;

    /// The shapes of the parameter tensors, layer by layer, the weight of a
    /// layer before its bias.
    spec fn spec_parameters(&self) -> Seq<Seq<usize>>;

    /// The shape of the logits for an input of the given shape.
    fn forward(&self, dims: [usize; 4]) -> (r: Result<[usize; 2], Error>)
        ensures
            match self.spec_forward(dims) {
                Some(out) => r matches Ok(o) && o@ == seq![out.0, out.1],
                None => r matches Err(e) && e.is(ErrorKind::Inference, shape_message()),
            },
    ;

    /// The shapes of the parameter tensors.
    fn parameter_shapes(&self) -> (shapes: Vec<Vec<usize>>)
        ensures
            shape_views(shapes@) == self.spec_parameters(),
    ;
}

fn shape_error() -> (e: Error)
    ensures
        e.is(ErrorKind::Inference, shape_message()),
{
    let e = Error::new(ErrorKind::Inference, "input shape does not fit the architecture", "");
    proof {
        reveal_strlit("");
    }
    e
}

impl LeNet {
    /// True when the widths of the layers fit the machine word.
    pub open spec fn spec_fits(config: DatasetConfig) -> bool {
        width_or(config.model.conv2_out, 64) * (config.input_size[0] / 4) * (config.input_size[1]
            / 4) <= usize::MAX
    }

    /// The plan that a configuration gives. The convolutions have kernels of
    /// five by five with padding two; the last feature map is a quarter of
    /// the input high and a quarter of it wide, and the first fully connected
    /// layer takes all of it.
    pub open spec fn spec_new(config: DatasetConfig) -> LeNet {
        let conv1_out = width_or(config.model.conv1_out, 32);
        let conv2_out = width_or(config.model.conv2_out, 64);
        let rows = config.input_size[0] / 4;
        let columns = config.input_size[1] / 4;
        LeNet {
            conv1: ConvLayer {
                in_channels: config.input_channels,
                out_channels: conv1_out,
                kernel: 5,
                padding: 2,
            },
            conv2: ConvLayer {
                in_channels: conv1_out,
                out_channels: conv2_out,
                kernel: 5,
                padding: 2,
            },
            fc1: LinearLayer {
                in_features: (conv2_out * rows * columns) as usize,
                out_features: config.model.fc1_out,
            },
            fc2: LinearLayer {
                in_features: config.model.fc1_out,
                out_features: config.num_classes,
            },
        }
    }

    /// Decides whether the widths of the layers fit the machine word.
    pub fn fits(config: &DatasetConfig) -> (ok: bool)
        ensures
            ok == Self::spec_fits(*config),
    {
        let conv2_out = match config.model.conv2_out {
            Some(w) => w,
            None => 64,
        };
        let rows = config.input_size[0] / 4;
        let columns = config.input_size[1] / 4;
        checked_volume(conv2_out, rows, columns).is_some()
    }

    /// Builds the plan that a configuration gives.
    pub fn new(config: &DatasetConfig) -> (model: LeNet)
        requires
            Self::spec_fits(*config),
        ensures
            model == Self::spec_new(*config),
    {
        let conv1_out = match config.model.conv1_out {
            Some(w) => w,
            None => 32,
        };
        let conv2_out = match config.model.conv2_out {
            Some(w) => w,
            None => 64,
        };
        let rows = config.input_size[0] / 4;
        let columns = config.input_size[1] / 4;
        let in_features = match checked_volume(conv2_out, rows, columns) {
            Some(n) => n,
            None => 0,
        };
        LeNet {
            conv1: ConvLayer {
                in_channels: config.input_channels,
                out_channels: conv1_out,
                kernel: 5,
                padding: 2,
            },
            conv2: ConvLayer {
                in_channels: conv1_out,
                out_channels: conv2_out,
                kernel: 5,
                padding: 2,
            },
            fc1: LinearLayer { in_features, out_features: config.model.fc1_out },
            fc2: LinearLayer {
                in_features: config.model.fc1_out,
                out_features: config.num_classes,
            },
        }
    }
}

impl ModelTrait for LeNet {
    open spec fn spec_forward(&self, dims: [usize; 4]) -> Option<(usize, usize)> {
        match stage_shape((dims[1] as int, dims[2] as int, dims[3] as int), self.conv1) {
            Some(first) => match stage_shape(first, self.conv2) {
                Some(second) => match linear_width(second.0 * second.1 * second.2, self.fc1) {
                    Some(hidden) => match linear_width(hidden, self.fc2) {
                        Some(classes) => Some((dims[0], classes as usize)),
                        None => None,
                    },
                    None => None,
                },
                None => None,
            },
            None => None,
        }
    }

    open spec fn spec_parameters(&self) -> Seq<Seq<usize>> {
        conv_parameters(self.conv1) + conv_parameters(self.conv2) + linear_parameters(self.fc1)
            + linear_parameters(self.fc2)
    }

    fn forward(&self, dims: [usize; 4]) -> (r: Result<[usize; 2], Error>) {
        let first = match stage_exec((dims[1], dims[2], dims[3]), &self.conv1) {
            Some(s) => s,
            None => {
                return Err(shape_error());
            },
        };
        let second = match stage_exec(first, &self.conv2) {
            Some(s) => s,
            None => {
                return Err(shape_error());
            },
        };
        let flat = checked_volume(second.0, second.1, second.2);
        if flat != Some(self.fc1.in_features) || self.fc1.out_features != self.fc2.in_features {
            return Err(shape_error());
        }
        let out = [dims[0], self.fc2.out_features];
        Ok(out)
    }

    fn parameter_shapes(&self) -> (shapes: Vec<Vec<usize>>) {
        let mut shapes: Vec<Vec<usize>> = Vec::new();
        push_conv(&mut shapes, &self.conv1);
        push_conv(&mut shapes, &self.conv2);
        push_linear(&mut shapes, &self.fc1);
        push_linear(&mut shapes, &self.fc2);
        shapes
    }
}

impl CifarNet {
    /// The share of activations dropped between the hidden layers while
    /// training, in percent.
    pub fn dropout_percent() -> (percent: u8)
        ensures
            percent == 50,
    {
        50
    }

    /// True when the widths of the layers fit the machine word.
    pub open spec fn spec_fits(config: DatasetConfig) -> bool {
        width_or(config.model.conv3_out, 256) * 4 * 4 <= usize::MAX
    }

    /// The plan that a configuration gives. The convolutions have kernels of
    /// three by three with padding one; the side of the last feature map is
    /// four, whatever the input size.
    pub open spec fn spec_new(config: DatasetConfig) -> CifarNet {
        let conv1_out = width_or(config.model.conv1_out, 64);
        let conv2_out = width_or(config.model.conv2_out, 128);
        let conv3_out = width_or(config.model.conv3_out, 256);
        let fc2_out = width_or(config.model.fc2_out, 256);
        CifarNet {
            conv1: ConvLayer {
                in_channels: config.input_channels,
                out_channels: conv1_out,
                kernel: 3,
                padding: 1,
            },
            conv2: ConvLayer {
                in_channels: conv1_out,
                out_channels: conv2_out,
                kernel: 3,
                padding: 1,
            },
            conv3: ConvLayer {
                in_channels: conv2_out,
                out_channels: conv3_out,
                kernel: 3,
                padding: 1,
            },
            fc1: LinearLayer {
                in_features: (conv3_out * 4 * 4) as usize,
                out_features: config.model.fc1_out,
            },
            fc2: LinearLayer { in_features: config.model.fc1_out, out_features: fc2_out },
            fc3: LinearLayer { in_features: fc2_out, out_features: config.num_classes },
        }
    }

    /// Decides whether the widths of the layers fit the machine word.
    pub fn fits(config: &DatasetConfig) -> (ok: bool)
        ensures
            ok == Self::spec_fits(*config),
    {
        let conv3_out = match config.model.conv3_out {
            Some(w) => w,
            None => 256,
        };
        checked_volume(conv3_out, 4, 4).is_some()
    }

    /// Builds the plan that a configuration gives.
    pub fn new(config: &DatasetConfig) -> (model: CifarNet)
        requires
            Self::spec_fits(*config),
        ensures
            model == Self::spec_new(*config),
    {
        let conv1_out = match config.model.conv1_out {
            Some(w) => w,
            None => 64,
        };
        let conv2_out = match config.model.conv2_out {
            Some(w) => w,
            None => 128,
        };
        let conv3_out = match config.model.conv3_out {
            Some(w) => w,
            None => 256,
        };
        let fc2_out = match config.model.fc2_out {
            Some(w) => w,
            None => 256,
        };
        let in_features = match checked_volume(conv3_out, 4, 4) {
            Some(n) => n,
            None => 0,
        };
        CifarNet {
            conv1: ConvLayer {
                in_channels: config.input_channels,
                out_channels: conv1_out,
                kernel: 3,
                padding: 1,
            },
            conv2: ConvLayer {
                in_channels: conv1_out,
                out_channels: conv2_out,
                kernel: 3,
                padding: 1,
            },
            conv3: ConvLayer {
                in_channels: conv2_out,
                out_channels: conv3_out,
                kernel: 3,
                padding: 1,
            },
            fc1: LinearLayer { in_features, out_features: config.model.fc1_out },
            fc2: LinearLayer { in_features: config.model.fc1_out, out_features: fc2_out },
            fc3: LinearLayer { in_features: fc2_out, out_features: config.num_classes },
        }
    }
}

impl ModelTrait for CifarNet {
    open spec fn spec_forward(&self, dims: [usize; 4]) -> Option<(usize, usize)> {
        match stage_shape((dims[1] as int, dims[2] as int, dims[3] as int), self.conv1) {
            Some(first) => match stage_shape(first, self.conv2) {
                Some(second) => match stage_shape(second, self.conv3) {
                    Some(third) => match linear_width(third.0 * third.1 * third.2, self.fc1) {
                        Some(hidden1) => match linear_width(hidden1, self.fc2) {
                            Some(hidden2) => match linear_width(hidden2, self.fc3) {
                                Some(classes) => Some((dims[0], classes as usize)),
                                None => None,
                            },
                            None => None,
                        },
                        None => None,
                    },
                    None => None,
                },
                None => None,
            },
            None => None,
        }
    }

    open spec fn spec_parameters(&self) -> Seq<Seq<usize>> {
        conv_parameters(self.conv1) + conv_parameters(self.conv2) + conv_parameters(self.conv3)
            + linear_parameters(self.fc1) + linear_parameters(self.fc2) + linear_parameters(
            self.fc3,
        )
    }

    fn forward(&self, dims: [usize; 4]) -> (r: Result<[usize; 2], Error>) {
        let first = match stage_exec((dims[1], dims[2], dims[3]), &self.conv1) {
            Some(s) => s,
            None => {
                return Err(shape_error());
            },
        };
        let second = match stage_exec(first, &self.conv2) {
            Some(s) => s,
            None => {
                return Err(shape_error());
            },
        };
        let third = match stage_exec(second, &self.conv3) {
            Some(s) => s,
            None => {
                return Err(shape_error());
            },
        };
        let flat = checked_volume(third.0, third.1, third.2);
        if flat != Some(self.fc1.in_features) || self.fc1.out_features != self.fc2.in_features
            || self.fc2.out_features != self.fc3.in_features {
            return Err(shape_error());
        }
        let out = [dims[0], self.fc3.out_features];
        Ok(out)
    }

    fn parameter_shapes(&self) -> (shapes: Vec<Vec<usize>>) {
        let mut shapes: Vec<Vec<usize>> = Vec::new();
        push_conv(&mut shapes, &self.conv1);
        push_conv(&mut shapes, &self.conv2);
        push_conv(&mut shapes, &self.conv3);
        push_linear(&mut shapes, &self.fc1);
        push_linear(&mut shapes, &self.fc2);
        push_linear(&mut shapes, &self.fc3);
        shapes
    }
}

impl ModelTrait for ModelInstance {
    open spec fn spec_forward(&self, dims: [usize; 4]) -> Option<(usize, usize)> {
        match self {
            ModelInstance::Mnist(model) => model.spec_forward(dims),
            ModelInstance::Cifar10(model) => model.spec_forward(dims),
        }
    }

    open spec fn spec_parameters(&self) -> Seq<Seq<usize>> {
        match self {
            ModelInstance::Mnist(model) => model.spec_parameters(),
            ModelInstance::Cifar10(model) => model.spec_parameters(),
        }
    }

    fn forward(&self, dims: [usize; 4]) -> (r: Result<[usize; 2], Error>) {
        match self {
            ModelInstance::Mnist(model) => model.forward(dims),
            ModelInstance::Cifar10(model) => model.forward(dims),
        }
    }

    fn parameter_shapes(&self) -> (shapes: Vec<Vec<usize>>) {
        match self {
            ModelInstance::Mnist(model) => model.parameter_shapes(),
            ModelInstance::Cifar10(model) => model.parameter_shapes(),
        }
    }
}

/// The shallow architecture built from a configuration turns every batch of
/// images of the configured shape into one logit per class and sample,
/// provided the images are at least four pixels high and wide.
pub proof fn lemma_lenet_logits(config: DatasetConfig, dims: [usize; 4])
    requires
        LeNet::spec_fits(config),
        dims[1] == config.input_channels,
        dims[2] == config.input_size[0],
        dims[3] == config.input_size[1],
        dims[2] >= 4,
        dims[3] >= 4,
    ensures
        LeNet::spec_new(config).spec_forward(dims) == Some((dims[0], config.num_classes)),
{
    let model = LeNet::spec_new(config);
    let h = dims[2] as int;
    let w = dims[3] as int;
    let first = stage_shape((dims[1] as int, h, w), model.conv1);
    assert(conv_side(h, model.conv1) == Some(h));
    assert(conv_side(w, model.conv1) == Some(w));
    assert(first == Some((model.conv1.out_channels as int, h / 2, w / 2)));
    assert(conv_side(h / 2, model.conv2) == Some(h / 2));
    assert(conv_side(w / 2, model.conv2) == Some(w / 2));
    assert((h / 2) / 2 == h / 4);
    assert((w / 2) / 2 == w / 4);
    let second = stage_shape(first->0, model.conv2);
    assert(second == Some((model.conv2.out_channels as int, h / 4, w / 4)));
}

/// The deep architecture built from a configuration turns every batch of
/// images of thirty-two by thirty-two pixels (and of up to thirty-nine, which
/// pooling reduces to the same feature map) into one logit per class and
/// sample.
pub proof fn lemma_cifarnet_logits(config: DatasetConfig, dims: [usize; 4])
    requires
        CifarNet::spec_fits(config),
        dims[1] == config.input_channels,
        32 <= dims[2] < 40,
        32 <= dims[3] < 40,
    ensures
        CifarNet::spec_new(config).spec_forward(dims) == Some((dims[0], config.num_classes)),
{
    let model = CifarNet::spec_new(config);
    let h = dims[2] as int;
    let w = dims[3] as int;
    let first = stage_shape((dims[1] as int, h, w), model.conv1);
    assert(conv_side(h, model.conv1) == Some(h));
    assert(conv_side(w, model.conv1) == Some(w));
    assert(first == Some((model.conv1.out_channels as int, h / 2, w / 2)));
    assert(conv_side(h / 2, model.conv2) == Some(h / 2));
    assert(conv_side(w / 2, model.conv2) == Some(w / 2));
    let second = stage_shape(first->0, model.conv2);
    assert(second == Some((model.conv2.out_channels as int, (h / 2) / 2, (w / 2) / 2)));
    assert(conv_side((h / 2) / 2, model.conv3) == Some((h / 2) / 2));
    assert(conv_side((w / 2) / 2, model.conv3) == Some((w / 2) / 2));
    assert(((h / 2) / 2) / 2 == 4);
    assert(((w / 2) / 2) / 2 == 4);
    let third = stage_shape(second->0, model.conv3);
    assert(third == Some((model.conv3.out_channels as int, 4int, 4int)));
}

/// What became of the attempt to decode a checkpoint.
pub enum Checkpoint {
    /// The checkpoint could not be decoded; the text says why.
    Undecodable(String),
    /// The checkpoint was decoded into parameter tensors of these shapes,
    /// layer by layer, the weight of a layer before its bias.
    Decoded(Vec<Vec<usize>>),
}

/// The text of the failure reported for an unknown architecture tag.
pub open spec fn unsupported_model_message(tag: Seq<char>) -> Seq<char> {
    "未対応のモデルタイプ: "@ + tag
}

/// The text of the failure reported when the widths of the layers do not fit
/// the machine word.
pub open spec fn too_wide_message(name: Seq<char>) -> Seq<char> {
    "layer widths do not fit the machine word: "@ + name
}

/// The reason given for a checkpoint whose parameters have other shapes than
/// the architecture.
pub open spec fn shape_mismatch_reason() -> Seq<char> {
    "parameter shapes differ from the architecture"@
}

/// What selecting an architecture answers: the tag `lenet` asks for the
/// shallow architecture, `cifar_net` for the deep one, and any other tag is
/// rejected.
pub open spec fn spec_select(config: DatasetConfig) -> Result<
    ModelInstance,
    (ErrorKind, Seq<char>),
> {
    if config.model.model_type@ == "lenet"@ {
        if LeNet::spec_fits(config) {
            Ok(ModelInstance::Mnist(LeNet::spec_new(config)))
        } else {
            Err((ErrorKind::Config, too_wide_message(config.name@)))
        }
    } else if config.model.model_type@ == "cifar_net"@ {
        if CifarNet::spec_fits(config) {
            Ok(ModelInstance::Cifar10(CifarNet::spec_new(config)))
        } else {
            Err((ErrorKind::Config, too_wide_message(config.name@)))
        }
    } else {
        Err((ErrorKind::UnsupportedArchitecture, unsupported_model_message(config.model.model_type@)))
    }
}

/// What accepting a checkpoint answers: a checkpoint is accepted when it was
/// decoded into exactly the parameter shapes of the architecture.
pub open spec fn spec_accept(
    model: ModelInstance,
    checkpoint: Checkpoint,
    prefix: Seq<char>,
) -> Result<(), (ErrorKind, Seq<char>)> {
    match checkpoint {
        Checkpoint::Undecodable(reason) => Err((ErrorKind::Checkpoint, prefix + reason@)),
        Checkpoint::Decoded(shapes) => if shape_views(shapes@) == model.spec_parameters() {
            Ok(())
        } else {
            Err((ErrorKind::Checkpoint, prefix + shape_mismatch_reason()))
        },
    }
}

/// Selects the architecture that the configuration asks for.
pub fn select_model(config: &DatasetConfig) -> (r: Result<ModelInstance, Error>)
    ensures
        match spec_select(*config) {
            Ok(model) => r == Ok::<ModelInstance, Error>(model),
            Err((kind, message)) => r matches Err(e) && e.is(kind, message),
        },
{
    let lenet = String::from_str("lenet");
    let cifar_net = String::from_str("cifar_net");
    if config.model.model_type == lenet {
        if LeNet::fits(config) {
            Ok(ModelInstance::Mnist(LeNet::new(config)))
        } else {
            Err(
                Error::new(
                    ErrorKind::Config,
                    "layer widths do not fit the machine word: ",
                    config.name.as_str(),
                ),
            )
        }
    } else if config.model.model_type == cifar_net {
        if CifarNet::fits(config) {
            Ok(ModelInstance::Cifar10(CifarNet::new(config)))
        } else {
            Err(
                Error::new(
                    ErrorKind::Config,
                    "layer widths do not fit the machine word: ",
                    config.name.as_str(),
                ),
            )
        }
    } else {
        Err(
            Error::new(
                ErrorKind::UnsupportedArchitecture,
                "未対応のモデルタイプ: ",
                config.model.model_type.as_str(),
            ),
        )
    }
}

/// Checks a checkpoint against an architecture. The text of a failure opens
/// with `prefix`.
pub fn accept_checkpoint(model: &ModelInstance, checkpoint: &Checkpoint, prefix: &str) -> (r:
    Result<(), Error>)
    ensures
        match spec_accept(*model, *checkpoint, prefix@) {
            Ok(_) => r is Ok,
            Err((kind, message)) => r matches Err(e) && e.is(kind, message),
        },
{
    match checkpoint {
        Checkpoint::Undecodable(reason) => Err(
            Error::new(ErrorKind::Checkpoint, prefix, reason.as_str()),
        ),
        Checkpoint::Decoded(shapes) => {
            let expected = model.parameter_shapes();
            if shapes_equal(shapes, &expected) {
                Ok(())
            } else {
                Err(
                    Error::new(
                        ErrorKind::Checkpoint,
                        prefix,
                        "parameter shapes differ from the architecture",
                    ),
                )
            }
        },
    }
}

} // verus!
