//! Labeled samples and where they come from.
//!
//! A sample is an image of 8-bit intensities in channel-major order (channel,
//! then row, then column) with an integer label. The natural-image dataset is
//! decoded from files of fixed-length records, or replaced by a synthetic
//! dataset when its files are missing.

use crate::error::{Error, ErrorKind};
use crate::shape::checked_volume;
use std::collections::hash_map::DefaultHasher;
use std::hash::Hasher;
use vstd::arithmetic::div_mod::{
    lemma_add_mod_noop,
    lemma_basic_div,
    lemma_fundamental_div_mod_converse,
    lemma_mod_bound,
    lemma_small_mod,
};
use vstd::bytes::{spec_u64_to_le_bytes, u64_to_le_bytes};
use vstd::prelude::*;
use vstd::slice::{slice_subrange, slice_to_vec};
use vstd::std_specs::hash::DefaultHasherAdditionalSpecFns;

verus! {

/// The channels of a natural image.
pub const CIFAR_CHANNELS: usize = 3;

/// The height and the width of a natural image.
pub const CIFAR_SIDE: usize = 32;

/// The number of intensities in a natural image.
pub const CIFAR_PIXELS: usize = 3072;

/// The number of samples that stand in for a missing training split.
pub const SYNTHETIC_TRAIN_SIZE: usize = 50000;

/// The number of samples that stand in for a missing test split.
pub const SYNTHETIC_TEST_SIZE: usize = 10000;

/// What a sample is: its intensities and its label.
pub struct ItemView {
    pub image: Seq<u8>,
    pub label: nat,
}

/// A sample of the natural-image dataset.
#[derive(Debug, Clone, PartialEq, Eq)]
pub struct Cifar10Item {
    pub image: Vec<u8>,
    pub label: usize,
}

/// A sample of the digit dataset.
#[derive(Debug, Clone, PartialEq, Eq)]
pub struct MnistItem {
    pub image: Vec<u8>,
    pub label: u8,
}

impl View for Cifar10Item {
    type V = ItemView;

    open spec fn view(&self) -> ItemView {
        ItemView { image: self.image@, label: self.label as nat }
    }
}

impl View for MnistItem {
    type V = ItemView;

    open spec fn view(&self) -> ItemView {
        ItemView { image: self.image@, label: self.label as nat }
    }
}

/// The position of the intensity at (`c`, `h`, `w`) in an image of the given
/// height and width.
pub open spec fn pixel_offset(c: int, h: int, w: int, height: int, width: int) -> int {
    c * height * width + h * width + w
}

/// The views of a sequence of samples.
pub open spec fn item_views<T: View<V = ItemView>>(items: Seq<T>) -> Seq<ItemView> {
    Seq::new(items.len(), |i: int| items[i]@)
}

/// The length of a record that holds one label byte and `pixels` intensities.
pub open spec fn record_len(pixels: nat) -> nat {
    1 + pixels
}

/// The samples that a file of records holds: one for each complete record,
/// in the order of the file. The first byte of a record is the label, the
/// rest are the intensities. What follows the last complete record is not a
/// sample.
pub open spec fn spec_decode(bytes: Seq<u8>, pixels: nat) -> Seq<ItemView> {
    Seq::new(
        (bytes.len() / record_len(pixels)) as nat,
        |k: int|
            ItemView {
                image: bytes.subrange(
                    k * record_len(pixels) + 1,
                    (k + 1) * record_len(pixels),
                ),
                label: bytes[k * record_len(pixels)] as nat,
            },
    )
}

/// The samples of several files of records, one file after the other.
pub open spec fn spec_decode_all(files: Seq<Seq<u8>>, pixels: nat) -> Seq<ItemView>
    decreases files.len(),
{
    if files.len() == 0 {
        Seq::empty()
    } else {
        spec_decode_all(files.drop_last(), pixels) + spec_decode(files.last(), pixels)
    }
}

/// The intensity at (`c`, `h`, `w`) of the `k`-th sample of a file is the
/// byte of the `k`-th record that stands after the label at the channel-major
/// position of (`c`, `h`, `w`).
pub proof fn lemma_decoded_pixel(
    bytes: Seq<u8>,
    channels: nat,
    height: nat,
    width: nat,
    k: int,
    c: int,
    h: int,
    w: int,
)
    requires
        0 <= k < bytes.len() / record_len(channels * height * width),
        0 <= c < channels,
        0 <= h < height,
        0 <= w < width,
    ensures
        spec_decode(bytes, channels * height * width).len() == bytes.len() / record_len(
            channels * height * width,
        ),
        0 <= pixel_offset(c, h, w, height as int, width as int) < channels * height * width,
        k * record_len(channels * height * width) + 1 + pixel_offset(
            c,
            h,
            w,
            height as int,
            width as int,
        ) < bytes.len(),
        spec_decode(bytes, channels * height * width)[k].label == bytes[k * record_len(
            channels * height * width,
        )],
        spec_decode(bytes, channels * height * width)[k].image[pixel_offset(
            c,
            h,
            w,
            height as int,
            width as int,
        )] == bytes[k * record_len(channels * height * width) + 1 + pixel_offset(
            c,
            h,
            w,
            height as int,
            width as int,
        )],
{
    let pixels = channels * height * width;
    let rl = record_len(pixels) as int;
    let offset = pixel_offset(c, h, w, height as int, width as int);
    lemma_offset_in_range(c, h, w, channels as int, height as int, width as int);
    lemma_record_in_range(bytes.len() as int, rl, k);
    assert((k + 1) * rl == k * rl + rl) by (nonlinear_arith);
    assert(k * rl + 1 + offset < (k + 1) * rl);
    let image = bytes.subrange(k * rl + 1, (k + 1) * rl);
    assert(spec_decode(bytes, pixels)[k].image == image);
    assert(image[offset] == bytes[k * rl + 1 + offset]);
}

/// A file of exactly `k` records holds `k` samples.
pub proof fn lemma_whole_records(bytes: Seq<u8>, pixels: nat, k: nat)
    requires
        bytes.len() == k * record_len(pixels),
    ensures
        spec_decode(bytes, pixels).len() == k,
{
    lemma_fundamental_div_mod_converse(
        bytes.len() as int,
        record_len(pixels) as int,
        k as int,
        0,
    );
}

/// A channel-major position lies within the image.
pub proof fn lemma_offset_in_range(c: int, h: int, w: int, channels: int, height: int, width: int)
    requires
        0 <= c < channels,
        0 <= h < height,
        0 <= w < width,
    ensures
        0 <= pixel_offset(c, h, w, height, width) < channels * height * width,
{
    assert(0 <= c * height * width) by (nonlinear_arith)
        requires
            0 <= c,
            0 <= height,
            0 <= width,
    ;
    assert(0 <= h * width) by (nonlinear_arith)
        requires
            0 <= h,
            0 <= width,
    ;
    assert(h * width + w < height * width) by (nonlinear_arith)
        requires
            0 <= h < height,
            0 <= w < width,
    ;
    assert(c * height * width + height * width <= channels * height * width)
        by (nonlinear_arith)
        requires
            0 <= c < channels,
            0 <= height,
            0 <= width,
    ;
}

/// A complete record lies within the file.
pub proof fn lemma_record_in_range(len: int, rl: int, k: int)
    requires
        0 < rl,
        0 <= len,
        0 <= k < len / rl,
    ensures
        0 <= k * rl,
        (k + 1) * rl <= len,
{
    assert((len / rl) * rl <= len) by (nonlinear_arith)
        requires
            0 < rl,
            0 <= len,
    ;
    assert((k + 1) * rl <= (len / rl) * rl) by (nonlinear_arith)
        requires
            0 < rl,
            k + 1 <= len / rl,
    ;
    assert(0 <= k * rl) by (nonlinear_arith)
        requires
            0 <= k,
            0 < rl,
    ;
}

/// Decodes a file of records of one label byte and `channels * height *
/// width` intensities each. A short trailing record is discarded.
pub fn decode_records(bytes: &[u8], channels: usize, height: usize, width: usize) -> (samples: Vec<
    Cifar10Item,
>)
    ensures
        item_views(samples@) == spec_decode(bytes@, (channels * height * width) as nat),
        samples@.len() == bytes@.len() / record_len((channels * height * width) as nat),
{
    let len = bytes.len();
    let mut samples: Vec<Cifar10Item> = Vec::new();
    proof {
        assert(0 <= channels * height * width) by (nonlinear_arith)
            requires
                0 <= channels,
                0 <= height,
                0 <= width,
        ;
    }
    let ghost pixels_nat = (channels * height * width) as nat;
    let ghost rl_int = record_len(pixels_nat) as int;
    let pixels = match checked_volume(channels, height, width) {
        Some(pixels) => pixels,
        None => usize::MAX,
    };
    if pixels >= len {
        proof {
            lemma_basic_div(len as int, rl_int);
            assert(item_views(samples@) =~= spec_decode(bytes@, pixels_nat));
        }
        return samples;
    }
    let rl: usize = pixels + 1;
    let mut start: usize = 0;
    assert(samples@.len() * rl_int == 0) by (nonlinear_arith)
        requires
            samples@.len() == 0,
    ;
    while len - start >= rl
        invariant
            len == bytes@.len(),
            rl == rl_int,
            rl_int == record_len(pixels_nat),
            rl >= 1,
            start <= len,
            start == samples@.len() * rl_int,
            forall|k: int|
                0 <= k < samples@.len() ==> (#[trigger] samples@[k])@ == (ItemView {
                    image: bytes@.subrange(k * rl_int + 1, (k + 1) * rl_int),
                    label: bytes@[k * rl_int] as nat,
                }),
        decreases len - start,
    {
        let ghost k = samples@.len() as int;
        proof {
            assert((k + 1) * rl_int == start + rl_int) by (nonlinear_arith)
                requires
                    start == k * rl_int,
            ;
        }
        let label = bytes[start] as usize;
        let image = slice_to_vec(slice_subrange(bytes, start + 1, start + rl));
        samples.push(Cifar10Item { image, label });
        start = start + rl;
    }
    proof {
        let n = samples@.len() as int;
        assert(len == rl_int * n + (len - start)) by (nonlinear_arith)
            requires
                start == n * rl_int,
        ;
        lemma_fundamental_div_mod_converse(len as int, rl_int, n, len - start);
        assert(item_views(samples@) =~= spec_decode(bytes@, pixels_nat));
    }
    samples
}

/// The natural-image dataset: its samples in order.
#[derive(Debug, Clone, PartialEq, Eq)]
pub struct Cifar10Dataset {
    pub samples: Vec<Cifar10Item>,
}

/// The seed of the synthetic sample at an index: the standard hasher's digest
/// of the index, written as eight little-endian bytes.
pub open spec fn index_seed(index: nat) -> u64 {
    DefaultHasher::spec_finish(seq![spec_u64_to_le_bytes(index as u64)])
}

/// The synthetic intensity at a position of the image of a seed: the seed
/// plus a thousand for each channel, ten for each row and one for each
/// column, reduced to a byte.
pub open spec fn synthetic_pixel(seed: u64, position: int) -> u8 {
    let c = position / 1024;
    let h = (position % 1024) / 32;
    let w = position % 32;
    ((seed + c * 1000 + h * 10 + w) % 256) as u8
}

/// The synthetic sample at an index. Its label is the seed reduced to one of
/// the ten classes.
pub open spec fn synthetic_item(index: nat) -> ItemView {
    ItemView {
        image: Seq::new(3072, |position: int| synthetic_pixel(index_seed(index), position)),
        label: (index_seed(index) % 10) as nat,
    }
}

/// The synthetic dataset of a given size. It depends on the size alone, so
/// that asking twice for the same size gives the same samples.
pub open spec fn spec_synthetic(size: nat) -> Seq<ItemView> {
    Seq::new(size, |index: int| synthetic_item(index as nat))
}

/// The name of the class with a given label, or `unknown`.
pub open spec fn spec_class_name(label: nat) -> Seq<char> {
    if label == 0 {
        "airplane"@
    } else if label == 1 {
        "automobile"@
    } else if label == 2 {
        "bird"@
    } else if label == 3 {
        "cat"@
    } else if label == 4 {
        "deer"@
    } else if label == 5 {
        "dog"@
    } else if label == 6 {
        "frog"@
    } else if label == 7 {
        "horse"@
    } else if label == 8 {
        "ship"@
    } else if label == 9 {
        "truck"@
    } else {
        "unknown"@
    }
}

/// The directory that holds the files of the natural-image dataset.
pub open spec fn spec_data_dir() -> Seq<char> {
    "datasets/cifar-10/cifar-10-batches-bin"@
}

/// The names of the files of a split, in the order in which they are read:
/// five numbered parts for training, one file for testing.
pub open spec fn spec_batch_file_names(is_train: bool) -> Seq<Seq<char>> {
    if is_train {
        seq![
            "data_batch_1.bin"@,
            "data_batch_2.bin"@,
            "data_batch_3.bin"@,
            "data_batch_4.bin"@,
            "data_batch_5.bin"@,
        ]
    } else {
        seq!["test_batch.bin"@]
    }
}

/// The text of the failure reported when the dataset directory is missing.
pub open spec fn missing_dir_message() -> Seq<char> {
    "CIFAR-10データディレクトリが見つかりません: "@ + spec_data_dir()
}

/// The text of the failure reported when a file of the dataset is missing.
pub open spec fn missing_file_message(name: Seq<char>) -> Seq<char> {
    "バッチファイルが見つかりません: "@ + spec_data_dir() + "/"@ + name
}

/// The contents of the files that were found, up to the first one missing.
pub open spec fn found_files(files: Seq<Option<Vec<u8>>>) -> Seq<Seq<u8>>
    decreases files.len(),
{
    if files.len() == 0 {
        Seq::empty()
    } else {
        match files.last() {
            Some(bytes) => found_files(files.drop_last()).push(bytes@),
            None => found_files(files.drop_last()),
        }
    }
}

/// The index of the first expected file that is missing, if any: a file is
/// missing when it was not found or was not handed over at all.
pub open spec fn first_missing(files: Seq<Option<Vec<u8>>>, expected: nat) -> Option<nat>
    decreases expected,
{
    if expected == 0 {
        None
    } else {
        match first_missing(files, (expected - 1) as nat) {
            Some(i) => Some(i),
            None => if expected - 1 < files.len() && files[expected - 1] is Some {
                None
            } else {
                Some((expected - 1) as nat)
            },
        }
    }
}

/// What loading a split answers: the samples of its files in order, or the
/// failure that names what is missing.
pub open spec fn spec_load(is_train: bool, dir_found: bool, files: Seq<Option<Vec<u8>>>) -> Result<
    Seq<ItemView>,
    (ErrorKind, Seq<char>),
> {
    let names = spec_batch_file_names(is_train);
    if !dir_found {
        Err((ErrorKind::DatasetUnavailable, missing_dir_message()))
    } else {
        match first_missing(files, names.len()) {
            Some(i) => Err((ErrorKind::DatasetUnavailable, missing_file_message(names[i as int]))),
            None => Ok(spec_decode_all(found_files(files.take(names.len() as int)), 3072)),
        }
    }
}

/// Once a file is missing, it stays the first one missing however many more
/// are expected.
pub proof fn lemma_first_missing_stable(files: Seq<Option<Vec<u8>>>, reached: nat, expected: nat)
    requires
        reached <= expected,
        first_missing(files, reached) is Some,
    ensures
        first_missing(files, expected) == first_missing(files, reached),
    decreases expected,
{
    if reached < expected {
        lemma_first_missing_stable(files, reached, (expected - 1) as nat);
    }
}

/// While no file is missing, every file so far was found.
pub proof fn lemma_found_files_len(files: Seq<Option<Vec<u8>>>, reached: nat)
    requires
        first_missing(files, reached) is None,
    ensures
        reached <= files.len(),
        forall|j: int| 0 <= j < reached ==> files[j] is Some,
    decreases reached,
{
    if reached > 0 {
        lemma_found_files_len(files, (reached - 1) as nat);
    }
}

fn seed_of(index: usize) -> (seed: u64)
    ensures
        seed == index_seed(index as nat),
{
    let bytes = u64_to_le_bytes(index as u64);
    let mut hasher = DefaultHasher::new();
    hasher.write(bytes.as_slice());
    assert(hasher@ =~= seq![spec_u64_to_le_bytes(index as u64)]);
    hasher.finish()
}

fn synthetic_image(seed: u64) -> (image: Vec<u8>)
    ensures
        image@ == Seq::new(3072, |position: int| synthetic_pixel(seed, position)),
{
    let low: u64 = seed % 256;
    let mut image: Vec<u8> = Vec::new();
    let mut position: u64 = 0;
    while position < 3072
        invariant
            position <= 3072,
            low == seed % 256,
            image@.len() == position,
            forall|j: int| 0 <= j < position ==> image@[j] == synthetic_pixel(seed, j),
        decreases 3072 - position,
    {
        let c: u64 = position / 1024;
        let h: u64 = (position % 1024) / 32;
        let w: u64 = position % 32;
        let offset: u64 = c * 1000 + h * 10 + w;
        let value: u64 = (low + offset) % 256;
        proof {
            lemma_add_mod_noop(seed as int, offset as int, 256);
            lemma_mod_bound(seed as int, 256);
            lemma_small_mod(low as nat, 256);
            assert((seed as int % 256 + offset as int % 256) % 256 == (seed + offset) % 256);
            lemma_add_mod_noop(low as int, offset as int, 256);
            assert((low as int % 256 + offset as int % 256) % 256 == (low + offset) % 256);
            assert(value == (seed + c * 1000 + h * 10 + w) % 256);
        }
        image.push(value as u8);
        position = position + 1;
    }
    assert(image@ =~= Seq::new(3072, |position: int| synthetic_pixel(seed, position)));
    image
}

impl Cifar10Item {
    /// A natural image has three channels of thirty-two rows and columns.
    pub open spec fn well_formed(&self) -> bool {
        self.image@.len() == 3072
    }

    /// The intensity at channel `c`, row `h` and column `w`.
    pub fn pixel(&self, c: usize, h: usize, w: usize) -> (value: u8)
        requires
            self.well_formed(),
            c < 3,
            h < 32,
            w < 32,
        ensures
            value == self.image@[pixel_offset(c as int, h as int, w as int, 32, 32)],
    {
        self.image[c * 1024 + h * 32 + w]
    }
}

/// The synthetic fallback is deterministic: two datasets made for the same
/// size hold the same labels and the same intensities, sample by sample.
pub proof fn lemma_synthetic_deterministic(
    first: Cifar10Dataset,
    second: Cifar10Dataset,
    size: nat,
)
    requires
        first@ == spec_synthetic(size),
        second@ == spec_synthetic(size),
    ensures
        first.samples@.len() == size,
        second.samples@.len() == size,
        forall|i: int|
            0 <= i < size ==> first.samples@[i].label == second.samples@[i].label
                && first.samples@[i].image@ == second.samples@[i].image@,
{
    assert(first@.len() == first.samples@.len());
    assert(second@.len() == second.samples@.len());
    assert forall|i: int| 0 <= i < size implies first.samples@[i].label
        == second.samples@[i].label && first.samples@[i].image@ == second.samples@[i].image@ by {
        assert(first@[i] == first.samples@[i]@);
        assert(second@[i] == second.samples@[i]@);
    }
}

impl Cifar10Dataset {
    /// What the dataset holds.
    pub open spec fn view(&self) -> Seq<ItemView> {
        item_views(self.samples@)
    }

    /// The synthetic dataset of a given size.
    pub fn create_dummy_dataset(size: usize) -> (dataset: Cifar10Dataset)
        ensures
            dataset@ == spec_synthetic(size as nat),
            dataset.samples@.len() == size,
    {
        let mut samples: Vec<Cifar10Item> = Vec::new();
        let mut index: usize = 0;
        while index < size
            invariant
                index <= size,
                samples@.len() == index,
                forall|k: int|
                    0 <= k < index ==> (#[trigger] samples@[k])@ == synthetic_item(k as nat),
            decreases size - index,
        {
            let seed = seed_of(index);
            let image = synthetic_image(seed);
            let label = (seed % 10) as usize;
            samples.push(Cifar10Item { image, label });
            index = index + 1;
        }
        let dataset = Cifar10Dataset { samples };
        assert(dataset@ =~= spec_synthetic(size as nat));
        dataset
    }

    /// Decodes one file of the dataset.
    pub fn read_cifar_batch(bytes: &[u8]) -> (samples: Vec<Cifar10Item>)
        ensures
            item_views(samples@) == spec_decode(bytes@, 3072),
            samples@.len() == bytes@.len() / 3073,
            forall|k: int| 0 <= k < samples@.len() ==> (#[trigger] samples@[k]).well_formed(),
    {
        let samples = decode_records(bytes, CIFAR_CHANNELS, CIFAR_SIDE, CIFAR_SIDE);
        proof {
            assert forall|k: int| 0 <= k < samples@.len() implies (#[trigger] samples@[
                k
            ]).well_formed() by {
                lemma_record_in_range(bytes@.len() as int, 3073, k);
                assert(samples@[k]@ == item_views(samples@)[k]);
                assert((k + 1) * 3073 == k * 3073 + 3073);
            }
        }
        samples
    }

    /// The names of the files of a split, in the order in which they are
    /// read.
    pub fn batch_file_names(is_train: bool) -> (names: Vec<String>)
        ensures
            names@.len() == spec_batch_file_names(is_train).len(),
            forall|i: int|
                0 <= i < names@.len() ==> (#[trigger] names@[i])@ == spec_batch_file_names(
                    is_train,
                )[i],
    {
        let mut names: Vec<String> = Vec::new();
        if is_train {
            names.push(String::from_str("data_batch_1.bin"));
            names.push(String::from_str("data_batch_2.bin"));
            names.push(String::from_str("data_batch_3.bin"));
            names.push(String::from_str("data_batch_4.bin"));
            names.push(String::from_str("data_batch_5.bin"));
        } else {
            names.push(String::from_str("test_batch.bin"));
        }
        names
    }

    /// Builds a split from the files that were read for it. `files` holds,
    /// for each name of `batch_file_names` in order, the contents of the file
    /// or `None` if it is missing. A missing directory or file makes the
    /// dataset unavailable; the failure names the first thing missing.
    pub fn load_cifar10_binary(is_train: bool, dir_found: bool, files: &Vec<Option<Vec<u8>>>) -> (r:
        Result<Cifar10Dataset, Error>)
        ensures
            match spec_load(is_train, dir_found, files@) {
                Ok(items) => r matches Ok(d) && d@ == items,
                Err((kind, message)) => r matches Err(e) && e.is(kind, message),
            },
    {
        if !dir_found {
            return Err(
                Error::new(
                    ErrorKind::DatasetUnavailable,
                    "CIFAR-10データディレクトリが見つかりません: ",
                    "datasets/cifar-10/cifar-10-batches-bin",
                ),
            );
        }
        let names = Self::batch_file_names(is_train);
        let mut samples: Vec<Cifar10Item> = Vec::new();
        let mut i: usize = 0;
        while i < names.len()
            invariant
                dir_found,
                i <= names@.len(),
                names@.len() == spec_batch_file_names(is_train).len(),
                forall|j: int|
                    0 <= j < names@.len() ==> (#[trigger] names@[j])@ == spec_batch_file_names(
                        is_train,
                    )[j],
                first_missing(files@, i as nat) is None,
                i <= files@.len() || i == 0,
                item_views(samples@) == spec_decode_all(found_files(files@.take(i as int)), 3072),
            decreases names@.len() - i,
        {
            let found = i < files.len() && files[i].is_some();
            if !found {
                let resource = String::from_str("datasets/cifar-10/cifar-10-batches-bin").concat(
                    "/",
                ).concat(names[i].as_str());
                let e = Error::new(
                    ErrorKind::DatasetUnavailable,
                    "バッチファイルが見つかりません: ",
                    resource.as_str(),
                );
                proof {
                    assert(first_missing(files@, (i + 1) as nat) == Some(i as nat));
                    lemma_first_missing_stable(files@, (i + 1) as nat, names@.len() as nat);
                    assert(e.message@ =~= missing_file_message(names@[i as int]@));
                }
                return Err(e);
            }
            proof {
                lemma_found_files_len(files@, i as nat);
                assert(files@.take(i + 1).drop_last() =~= files@.take(i as int));
                let before = found_files(files@.take(i as int));
                let bytes = files@[i as int]->0@;
                assert(found_files(files@.take(i + 1)) == before.push(bytes));
                assert(before.push(bytes).drop_last() =~= before);
            }
            let bytes = files[i].as_ref().unwrap();
            let mut batch = Self::read_cifar_batch(bytes.as_slice());
            let ghost old_samples = samples@;
            let ghost batch_items = batch@;
            samples.append(&mut batch);
            proof {
                assert(item_views(samples@) =~= item_views(old_samples) + item_views(batch_items));
            }
            i = i + 1;
        }
        proof {
            assert(i == names@.len());
            if i == 0 {
                assert(names@.len() > 0);
            }
        }
        Ok(Cifar10Dataset { samples })
    }

    /// The training split: the samples of the files if all of them are
    /// there, and else a synthetic dataset of fifty thousand samples.
    pub fn train(dir_found: bool, files: &Vec<Option<Vec<u8>>>) -> (dataset: Cifar10Dataset)
        ensures
            dataset@ == match spec_load(true, dir_found, files@) {
                Ok(items) => items,
                Err(_) => spec_synthetic(50000),
            },
    {
        match Self::load_cifar10_binary(true, dir_found, files) {
            Ok(dataset) => dataset,
            Err(_) => Self::create_dummy_dataset(SYNTHETIC_TRAIN_SIZE),
        }
    }

    /// The test split: the samples of the file if it is there, and else a
    /// synthetic dataset of ten thousand samples.
    pub fn test(dir_found: bool, files: &Vec<Option<Vec<u8>>>) -> (dataset: Cifar10Dataset)
        ensures
            dataset@ == match spec_load(false, dir_found, files@) {
                Ok(items) => items,
                Err(_) => spec_synthetic(10000),
            },
    {
        match Self::load_cifar10_binary(false, dir_found, files) {
            Ok(dataset) => dataset,
            Err(_) => Self::create_dummy_dataset(SYNTHETIC_TEST_SIZE),
        }
    }

    /// The number of samples.
    pub fn len(&self) -> (n: usize)
        ensures
            n == self@.len(),
    {
        self.samples.len()
    }

    /// The sample at an index, if there is one.
    pub fn get(&self, index: usize) -> (item: Option<Cifar10Item>)
        ensures
            match item {
                Some(i) => index < self@.len() && i@ == self@[index as int],
                None => index >= self@.len(),
            },
    {
        if index < self.samples.len() {
            let image = self.samples[index].image.clone();
            Some(Cifar10Item { image, label: self.samples[index].label })
        } else {
            None
        }
    }

    /// The name of the class with a given label, or `unknown`.
    pub fn get_class_name(label: usize) -> (name: &'static str)
        ensures
            name@ == spec_class_name(label as nat),
    {
        if label == 0 {
            "airplane"
        } else if label == 1 {
            "automobile"
        } else if label == 2 {
            "bird"
        } else if label == 3 {
            "cat"
        } else if label == 4 {
            "deer"
        } else if label == 5 {
            "dog"
        } else if label == 6 {
            "frog"
        } else if label == 7 {
            "horse"
        } else if label == 8 {
            "ship"
        } else if label == 9 {
            "truck"
        } else {
            "unknown"
        }
    }

    /// The number of classes.
    pub fn class_count() -> (n: usize)
        ensures
            n == 10,
    {
        10
    }
}

} // verus!
