//! Grouping samples into batches.
//!
//! A batch stacks the images of its samples into one contiguous block of
//! shape `[B, C, H, W]` and their labels into a vector of length `B`, both in
//! the order of the samples. The intensities stay bytes; the batch carries
//! the normalization that the numeric engine applies to them after scaling
//! each byte to the unit interval: subtract the mean of the channel, then
//! divide by its deviation.

use crate::config::{normalization_message, DatasetConfig, NormalizationConfig};
use crate::data::{item_views, Cifar10Item, ItemView, MnistItem};
use crate::error::{Error, ErrorKind};
use crate::shape::checked_volume;
use vstd::prelude::*;

verus! {

/// What a batch is.
pub struct BatchView {
    pub images: Seq<u8>,
    pub targets: Seq<usize>,
    pub dims: Seq<usize>,
    pub normalization: NormalizationConfig,
}

/// A batch of samples.
#[derive(Debug, Clone, PartialEq, Eq)]
pub struct Batch {
    /// The intensities of all samples, sample after sample.
    pub images: Vec<u8>,
    /// The labels of all samples.
    pub targets: Vec<usize>,
    /// The shape of `images`: samples, channels, height, width.
    pub dims: [usize; 4],
    /// The normalization to apply to the scaled intensities.
    pub normalization: NormalizationConfig,
}

/// A batch of digit samples.
pub type MnistBatch = Batch;

/// A batch of natural-image samples.
pub type CifarBatch = Batch;

/// Builds batches of digit samples.
#[derive(Debug, Clone, Copy, Default)]
pub struct MnistBatcher;

/// Builds batches of natural-image samples.
#[derive(Debug, Clone, Copy, Default)]
pub struct CifarBatcher;

impl View for Batch {
    type V = BatchView;

    open spec fn view(&self) -> BatchView {
        BatchView {
            images: self.images@,
            targets: self.targets@,
            dims: self.dims@,
            normalization: self.normalization,
        }
    }
}

/// Something that holds an image and a label.
pub trait Sample {
    /// What the sample is.
    spec fn item(&self) -> ItemView;

    /// The intensities of the sample.
    fn image(&self) -> (image: &Vec<u8>)
        ensures
            image@ == self.item().image,
    ;

    /// The label of the sample.
    fn label(&self) -> (label: usize)
        ensures
            label == self.item().label,
    ;
}

impl Sample for MnistItem {
    open spec fn item(&self) -> ItemView {
        self@
    }

    fn image(&self) -> (image: &Vec<u8>) {
        &self.image
    }

    fn label(&self) -> (label: usize) {
        self.label as usize
    }
}

impl Sample for Cifar10Item {
    open spec fn item(&self) -> ItemView {
        self@
    }

    fn image(&self) -> (image: &Vec<u8>) {
        &self.image
    }

    fn label(&self) -> (label: usize) {
        self.label
    }
}

/// The images of the samples, one after the other.
pub open spec fn stacked_images(items: Seq<ItemView>) -> Seq<u8>
    decreases items.len(),
{
    if items.len() == 0 {
        Seq::empty()
    } else {
        stacked_images(items.drop_last()) + items.last().image
    }
}

/// The labels of the samples, in order.
pub open spec fn stacked_labels(items: Seq<ItemView>) -> Seq<usize> {
    Seq::new(items.len(), |i: int| items[i].label as usize)
}

/// True when every sample holds exactly `pixels` intensities.
pub open spec fn all_fit(items: Seq<ItemView>, pixels: int) -> bool {
    forall|i: int| 0 <= i < items.len() ==> (#[trigger] items[i]).image.len() == pixels
}

/// The text of the failure reported when a sample does not have the shape
/// that the configuration gives.
pub open spec fn misfit_message(name: Seq<char>) -> Seq<char> {
    "sample does not hold channels * height * width intensities: "@ + name
}

/// What batching answers. The normalization is checked first, then the
/// samples.
pub open spec fn spec_batch(items: Seq<ItemView>, config: DatasetConfig) -> Result<
    BatchView,
    (ErrorKind, Seq<char>),
> {
    let pixels = config.input_channels * config.input_size[0] * config.input_size[1];
    if !config.training.normalization.spec_fits(config.input_channels as nat) {
        Err((ErrorKind::Config, normalization_message(config.name@)))
    } else if !all_fit(items, pixels) {
        Err((ErrorKind::Config, misfit_message(config.name@)))
    } else {
        Ok(
            BatchView {
                images: stacked_images(items),
                targets: stacked_labels(items),
                dims: seq![
                    items.len() as usize,
                    config.input_channels,
                    config.input_size[0],
                    config.input_size[1],
                ],
                normalization: config.training.normalization,
            },
        )
    }
}

/// The samples of a batch lie in its block in order: the block holds
/// `pixels` intensities for each sample, and the intensity at a position of
/// the `b`-th sample stands at that position of the `b`-th stretch.
pub proof fn lemma_stacked_layout(items: Seq<ItemView>, pixels: int, b: int, position: int)
    requires
        all_fit(items, pixels),
        0 <= b < items.len(),
        0 <= position < pixels,
    ensures
        stacked_images(items).len() == items.len() * pixels,
        0 <= b * pixels + position < stacked_images(items).len(),
        stacked_images(items)[b * pixels + position] == items[b].image[position],
        stacked_labels(items).len() == items.len(),
        stacked_labels(items)[b] == items[b].label as usize,
    decreases items.len(),
{
    lemma_stacked_len(items, pixels);
    let rest = items.drop_last();
    lemma_stacked_len(rest, pixels);
    assert(all_fit(rest, pixels)) by {
        assert forall|i: int| 0 <= i < rest.len() implies (#[trigger] rest[i]).image.len()
            == pixels by {
            assert(rest[i] == items[i]);
        }
    }
    assert(0 <= b * pixels) by (nonlinear_arith)
        requires
            0 <= b,
            0 <= pixels,
    ;
    assert(b * pixels + pixels <= items.len() * pixels) by (nonlinear_arith)
        requires
            b < items.len(),
            0 <= pixels,
    ;
    if b == items.len() - 1 {
        assert(rest.len() * pixels == b * pixels);
        assert(items.last().image.len() == pixels);
    } else {
        lemma_stacked_layout(rest, pixels, b, position);
        assert(rest[b] == items[b]);
    }
}

/// A batch of samples of `pixels` intensities each holds `pixels`
/// intensities for each sample.
pub proof fn lemma_stacked_len(items: Seq<ItemView>, pixels: int)
    requires
        all_fit(items, pixels),
    ensures
        stacked_images(items).len() == items.len() * pixels,
    decreases items.len(),
{
    if items.len() == 0 {
        assert(items.len() * pixels == 0) by (nonlinear_arith)
            requires
                items.len() == 0,
        ;
    } else {
        let rest = items.drop_last();
        assert(all_fit(rest, pixels)) by {
            assert forall|i: int| 0 <= i < rest.len() implies (#[trigger] rest[i]).image.len()
                == pixels by {
                assert(rest[i] == items[i]);
            }
        }
        lemma_stacked_len(rest, pixels);
        assert(items.last() == items[items.len() - 1]);
        assert(rest.len() * pixels + pixels == items.len() * pixels) by (nonlinear_arith)
            requires
                rest.len() + 1 == items.len(),
        ;
    }
}

/// The views of a sequence of samples.
pub open spec fn sample_views<S: Sample>(items: Seq<S>) -> Seq<ItemView> {
    Seq::new(items.len(), |i: int| items[i].item())
}

/// Stacks samples into a batch of the shape that the configuration gives.
pub fn stack<S: Sample>(items: &Vec<S>, config: &DatasetConfig) -> (r: Result<Batch, Error>)
    ensures
        match spec_batch(sample_views(items@), *config) {
            Ok(view) => r matches Ok(batch) && batch@ == view,
            Err((kind, message)) => r matches Err(e) && e.is(kind, message),
        },
{
    let channels = config.input_channels;
    let height = config.input_size[0];
    let width = config.input_size[1];
    let ghost pixels = channels * height * width;
    let ghost views = sample_views(items@);
    if !config.training.normalization.fits(channels) {
        return Err(
            Error::new(
                ErrorKind::Config,
                "normalization must hold one value per input channel: ",
                config.name.as_str(),
            ),
        );
    }
    let volume = checked_volume(channels, height, width);
    let mut images: Vec<u8> = Vec::new();
    let mut targets: Vec<usize> = Vec::new();
    let mut i: usize = 0;
    while i < items.len()
        invariant
            i <= items@.len(),
            views == sample_views(items@),
            pixels == channels * height * width,
            match volume {
                Some(n) => n == pixels,
                None => pixels > usize::MAX,
            },
            all_fit(views.take(i as int), pixels),
            images@ == stacked_images(views.take(i as int)),
            targets@ == stacked_labels(views.take(i as int)),
            config.training.normalization.spec_fits(config.input_channels as nat),
            channels == config.input_channels,
            height == config.input_size[0],
            width == config.input_size[1],
        decreases items@.len() - i,
    {
        let image = items[i].image();
        let len = image.len();
        let fits = match volume {
            Some(n) => len == n,
            None => false,
        };
        proof {
            assert(views[i as int] == items@[i as int].item());
            assert(views.take(i + 1).drop_last() =~= views.take(i as int));
            assert(views.take(i + 1).last() == views[i as int]);
        }
        if !fits {
            proof {
                assert(views[i as int].image.len() != pixels);
                assert(!all_fit(views, pixels));
            }
            return Err(
                Error::new(
                    ErrorKind::Config,
                    "sample does not hold channels * height * width intensities: ",
                    config.name.as_str(),
                ),
            );
        }
        let ghost before = images@;
        images.extend_from_slice(image.as_slice());
        targets.push(items[i].label());
        proof {
            assert(images@ =~= before + image@);
            assert forall|k: int| 0 <= k < i + 1 implies (#[trigger] views.take(i + 1)[
                k
            ]).image.len() == pixels by {
                if k < i {
                    assert(views.take(i + 1)[k] == views.take(i as int)[k]);
                }
            }
            assert(targets@ =~= stacked_labels(views.take(i + 1)));
        }
        i = i + 1;
    }
    proof {
        assert(views.take(items@.len() as int) =~= views);
    }
    let batch = Batch {
        images,
        targets,
        dims: [items.len(), channels, height, width],
        normalization: config.training.normalization,
    };
    proof {
        assert(batch.dims@ =~= seq![items@.len() as usize, channels, height, width]);
    }
    Ok(batch)
}

impl MnistBatcher {
    /// Batches digit samples.
    pub fn batch(&self, items: &Vec<MnistItem>, config: &DatasetConfig) -> (r: Result<
        MnistBatch,
        Error,
    >)
        ensures
            match spec_batch(item_views(items@), *config) {
                Ok(view) => r matches Ok(batch) && batch@ == view,
                Err((kind, message)) => r matches Err(e) && e.is(kind, message),
            },
    {
        proof {
            assert(sample_views(items@) =~= item_views(items@));
        }
        stack(items, config)
    }
}

impl CifarBatcher {
    /// Batches natural-image samples.
    pub fn batch(&self, items: &Vec<Cifar10Item>, config: &DatasetConfig) -> (r: Result<
        CifarBatch,
        Error,
    >)
        ensures
            match spec_batch(item_views(items@), *config) {
                Ok(view) => r matches Ok(batch) && batch@ == view,
                Err((kind, message)) => r matches Err(e) && e.is(kind, message),
            },
    {
        proof {
            assert(sample_views(items@) =~= item_views(items@));
        }
        stack(items, config)
    }
}

/// The channel of the intensity at a position of a block of images, each of
/// `channels` planes of `plane` intensities: the mean and the deviation of
/// that channel are the ones that apply to it.
pub open spec fn spec_channel_of(position: int, channels: int, plane: int) -> int {
    (position / plane) % channels
}

/// The channel of the intensity at a position of a block of images.
pub fn channel_of(position: usize, channels: usize, plane: usize) -> (channel: usize)
    requires
        channels > 0,
        plane > 0,
    ensures
        channel == spec_channel_of(position as int, channels as int, plane as int),
        channel < channels,
{
    (position / plane) % channels
}

/// The intensity of plane `c` at place `i` of the `b`-th image of a block
/// belongs to channel `c`.
pub proof fn lemma_channel_of(b: int, c: int, i: int, channels: int, plane: int)
    requires
        0 <= b,
        0 <= c < channels,
        0 <= i < plane,
    ensures
        spec_channel_of(b * (channels * plane) + c * plane + i, channels, plane) == c,
{
    let position = b * (channels * plane) + c * plane + i;
    assert(position == (b * channels + c) * plane + i) by (nonlinear_arith)
        requires
            position == b * (channels * plane) + c * plane + i,
    ;
    assert(0 <= b * channels) by (nonlinear_arith)
        requires
            0 <= b,
            0 <= channels,
    ;
    vstd::arithmetic::div_mod::lemma_fundamental_div_mod_converse(
        position,
        plane,
        b * channels + c,
        i,
    );
    assert(b * channels + c == channels * b + c) by (nonlinear_arith);
    vstd::arithmetic::div_mod::lemma_fundamental_div_mod_converse(
        b * channels + c,
        channels,
        b,
        c,
    );
}

} // verus!
