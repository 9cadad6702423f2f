//! From a decoded image to the input of an architecture.
//!
//! Every path to a forward pass prepares its input in the same way: the image
//! is reduced to the channels that the configuration asks for, resized to the
//! configured size by taking the nearest pixel, and laid out channel by
//! channel. The intensities stay bytes; the input carries the normalization
//! that the numeric engine applies to them after scaling each byte to the unit
//! interval.

use crate::config::{normalization_message, DatasetConfig, NormalizationConfig};
use crate::error::{Error, ErrorKind};
use crate::shape::checked_volume;
use image::DynamicImage;
use vstd::arithmetic::div_mod::lemma_fundamental_div_mod_converse;
use vstd::prelude::*;

verus! {

/// A decoded image, opaque to this library.
#[verifier::external_type_specification]
#[verifier::external_body]
pub struct ExDynamicImage(DynamicImage);

/// The pixels of a decoded image: `width * height` pixels row by row, each
/// with its channels side by side.
#[derive(Debug, Clone, PartialEq, Eq)]
pub struct RawImage {
    pub width: u32,
    pub height: u32,
    pub pixels: Vec<u8>,
}

/// The input of an architecture for one image.
#[derive(Debug, Clone, PartialEq, Eq)]
pub struct ImageInput {
    /// The intensities, channel by channel, each channel row by row.
    pub pixels: Vec<u8>,
    /// The shape of the input: one sample, channels, height, width.
    pub dims: [usize; 4],
    /// The normalization to apply to the scaled intensities.
    pub normalization: NormalizationConfig,
}

/// What resizing a single-channel image by nearest pixel gives.
pub uninterp spec fn resized_luma(
    pixels: Seq<u8>,
    width: nat,
    height: nat,
    new_width: nat,
    new_height: nat,
) -> Seq<u8>;

/// What resizing a three-channel image by nearest pixel gives.
pub uninterp spec fn resized_rgb(
    pixels: Seq<u8>,
    width: nat,
    height: nat,
    new_width: nat,
    new_height: nat,
) -> Seq<u8>;

/// What resizing an image of the given number of channels gives.
pub open spec fn resized(
    channels: nat,
    pixels: Seq<u8>,
    width: nat,
    height: nat,
    new_width: nat,
    new_height: nat,
) -> Seq<u8> {
    if channels == 1 {
        resized_luma(pixels, width, height, new_width, new_height)
    } else {
        resized_rgb(pixels, width, height, new_width, new_height)
    }
}

/// True when resizing from the given width to the given size stays within
/// what the machine can allocate: the intermediate image of four
/// single-precision channels and the result.
pub open spec fn resize_fits(channels: nat, width: nat, new_width: nat, new_height: nat) -> bool {
    16 * width * new_height <= isize::MAX && channels * new_width * new_height <= isize::MAX
}

/// The pixels of an image laid out channel by channel: the intensity of
/// channel `c` at pixel `i` moves from position `i * channels + c` to
/// position `c * count + i`.
pub open spec fn spec_planar(interleaved: Seq<u8>, channels: int, count: int) -> Seq<u8> {
    Seq::new(
        (channels * count) as nat,
        |j: int| interleaved[(j % count) * channels + j / count],
    )
}

/// `image::DynamicImage::to_luma8`, with the width, the height and the buffer
/// of the result taken apart. Claimed: the buffer holds at least one byte for
/// each pixel. It may hold more: an image that is gray already is handed out
/// with the buffer it was made with.
#[verifier::external_body]
fn luma_pixels(img: &DynamicImage) -> (raw: RawImage)
    ensures
        raw.pixels@.len() >= raw.width * raw.height,
{
    let gray = img.to_luma8();
    RawImage { width: gray.width(), height: gray.height(), pixels: gray.into_raw() }
}

/// `image::DynamicImage::to_rgb8`, with the width, the height and the buffer
/// of the result taken apart. Claimed: the buffer holds at least three bytes
/// for each pixel. It may hold more: an image of three channels is handed out
/// with the buffer it was made with.
#[verifier::external_body]
fn rgb_pixels(img: &DynamicImage) -> (raw: RawImage)
    ensures
        raw.pixels@.len() >= 3 * raw.width * raw.height,
{
    let rgb = img.to_rgb8();
    RawImage { width: rgb.width(), height: rgb.height(), pixels: rgb.into_raw() }
}

/// `image::imageops::resize` with `FilterType::Nearest` on a single-channel
/// image given by its buffer. Claimed: the result depends on the arguments
/// alone and holds one byte for each pixel of the new size. The call is left
/// out where a buffer would be too large to allocate.
#[verifier::external_body]
fn resize_luma(pixels: Vec<u8>, width: u32, height: u32, new_width: u32, new_height: u32) -> (out:
    Vec<u8>)
    requires
        pixels@.len() == width * height,
        resize_fits(1, width as nat, new_width as nat, new_height as nat),
    ensures
        out@ == resized_luma(
            pixels@,
            width as nat,
            height as nat,
            new_width as nat,
            new_height as nat,
        ),
        out@.len() == new_width * new_height,
{
    let source = image::GrayImage::from_raw(width, height, pixels).unwrap();
    image::imageops::resize(
        &source,
        new_width,
        new_height,
        image::imageops::FilterType::Nearest,
    ).into_raw()
}

/// `image::imageops::resize` with `FilterType::Nearest` on a three-channel
/// image given by its buffer. Claimed: the result depends on the arguments
/// alone and holds three bytes for each pixel of the new size. The call is
/// left out where a buffer would be too large to allocate.
#[verifier::external_body]
fn resize_rgb(pixels: Vec<u8>, width: u32, height: u32, new_width: u32, new_height: u32) -> (out:
    Vec<u8>)
    requires
        pixels@.len() == 3 * width * height,
        resize_fits(3, width as nat, new_width as nat, new_height as nat),
    ensures
        out@ == resized_rgb(
            pixels@,
            width as nat,
            height as nat,
            new_width as nat,
            new_height as nat,
        ),
        out@.len() == 3 * new_width * new_height,
{
    let source = image::RgbImage::from_raw(width, height, pixels).unwrap();
    image::imageops::resize(
        &source,
        new_width,
        new_height,
        image::imageops::FilterType::Nearest,
    ).into_raw()
}

/// Lays the pixels of an image out channel by channel.
pub fn to_planar(interleaved: &Vec<u8>, channels: usize, count: usize) -> (planar: Vec<u8>)
    requires
        interleaved@.len() == channels * count,
    ensures
        planar@ == spec_planar(interleaved@, channels as int, count as int),
        planar@.len() == interleaved@.len(),
{
    let len = interleaved.len();
    let mut planar: Vec<u8> = Vec::new();
    let mut c: usize = 0;
    assert(0 * count == 0) by (nonlinear_arith);
    while c < channels
        invariant
            c <= channels,
            len == interleaved@.len(),
            interleaved@.len() == channels * count,
            planar@.len() == c * count,
            forall|j: int|
                0 <= j < planar@.len() ==> planar@[j] == interleaved@[(j % (count as int))
                    * channels + j / (count as int)],
        decreases channels - c,
    {
        let mut i: usize = 0;
        while i < count
            invariant
                c < channels,
                i <= count,
                len == interleaved@.len(),
                interleaved@.len() == channels * count,
                planar@.len() == c * count + i,
                forall|j: int|
                    0 <= j < planar@.len() ==> planar@[j] == interleaved@[(j % (count as int))
                        * channels + j / (count as int)],
            decreases count - i,
        {
            proof {
                lemma_fundamental_div_mod_converse(
                    c * count + i,
                    count as int,
                    c as int,
                    i as int,
                );
                assert(0 <= i * channels && i * channels + c < channels * count)
                    by (nonlinear_arith)
                    requires
                        0 <= i < count,
                        0 <= c < channels,
                ;
                assert(c * count + i < channels * count) by (nonlinear_arith)
                    requires
                        i < count,
                        c < channels,
                ;
            }
            planar.push(interleaved[i * channels + c]);
            i = i + 1;
        }
        proof {
            assert((c + 1) * count == c * count + count) by (nonlinear_arith);
        }
        c = c + 1;
    }
    proof {
        assert(c * count == channels * count) by (nonlinear_arith)
            requires
                c == channels,
        ;
        assert(planar@ =~= spec_planar(interleaved@, channels as int, count as int));
    }
    planar
}

/// The text of the failure reported for a number of channels that is
/// neither one nor three.
pub open spec fn unsupported_channels_message(channels: nat) -> Seq<char> {
    "未対応のチャンネル数: "@ + crate::text::decimal_digits(channels)
}

/// The text of the failure reported for a buffer that does not hold the
/// pixels of its dimensions.
pub open spec fn buffer_message(name: Seq<char>) -> Seq<char> {
    "decoded image does not hold width * height pixels: "@ + name
}

/// The text of the failure reported for an image that cannot be resized
/// within what the machine can allocate.
pub open spec fn too_large_message(name: Seq<char>) -> Seq<char> {
    "image is too large to resize: "@ + name
}

/// What stands in the way of preparing an input from the configuration
/// alone, if anything: the number of channels is checked first, then the
/// normalization.
pub open spec fn config_obstacle(config: DatasetConfig) -> Option<(ErrorKind, Seq<char>)> {
    let c = config.input_channels as nat;
    if c != 1 && c != 3 {
        Some((ErrorKind::Config, unsupported_channels_message(c)))
    } else if !config.training.normalization.spec_fits(c) {
        Some((ErrorKind::Config, normalization_message(config.name@)))
    } else {
        None
    }
}

/// What stands in the way of preparing an input from the pixels of an image,
/// if anything: after the configuration, the buffer is checked, then the
/// sizes.
pub open spec fn prepare_obstacle(raw: RawImage, config: DatasetConfig) -> Option<
    (ErrorKind, Seq<char>),
> {
    let c = config.input_channels as nat;
    let h = config.input_size[0] as nat;
    let w = config.input_size[1] as nat;
    match config_obstacle(config) {
        Some(obstacle) => Some(obstacle),
        None => if raw.pixels@.len() != c * raw.width * raw.height {
            Some((ErrorKind::Io, buffer_message(config.name@)))
        } else if h > u32::MAX || w > u32::MAX || !resize_fits(c, raw.width as nat, w, h) {
            Some((ErrorKind::Io, too_large_message(config.name@)))
        } else {
            None
        },
    }
}

fn check_config(config: &DatasetConfig) -> (r: Result<(), Error>)
    ensures
        match config_obstacle(*config) {
            Some((kind, message)) => r matches Err(e) && e.is(kind, message),
            None => r is Ok,
        },
{
    let channels = config.input_channels;
    if channels != 1 && channels != 3 {
        let mut message = String::from_str("未対応のチャンネル数: ");
        crate::text::push_decimal(&mut message, channels as u64);
        return Err(Error { kind: ErrorKind::Config, message });
    }
    if !config.training.normalization.fits(channels) {
        return Err(
            Error::new(
                ErrorKind::Config,
                "normalization must hold one value per input channel: ",
                config.name.as_str(),
            ),
        );
    }
    Ok(())
}

fn fits_exec(channels: usize, width: u32, new_width: usize, new_height: usize) -> (ok: bool)
    requires
        channels <= 3,
    ensures
        ok == (new_height <= u32::MAX && new_width <= u32::MAX && resize_fits(
            channels as nat,
            width as nat,
            new_width as nat,
            new_height as nat,
        )),
{
    if new_height > 0xffff_ffff || new_width > 0xffff_ffff {
        return false;
    }
    let limit: u128 = isize::MAX as u128;
    assert(width * new_height <= 0xffff_ffff * 0xffff_ffff) by (nonlinear_arith)
        requires
            0 <= width <= 0xffff_ffff,
            0 <= new_height <= 0xffff_ffff,
    ;
    assert(new_width * new_height <= 0xffff_ffff * 0xffff_ffff) by (nonlinear_arith)
        requires
            0 <= new_width <= 0xffff_ffff,
            0 <= new_height <= 0xffff_ffff,
    ;
    let source_area: u128 = (width as u128) * (new_height as u128);
    let area: u128 = (new_width as u128) * (new_height as u128);
    let between: u128 = 16 * source_area;
    assert(channels * area <= 3 * (0xffff_ffff * 0xffff_ffff)) by (nonlinear_arith)
        requires
            0 <= channels <= 3,
            0 <= area <= 0xffff_ffff * 0xffff_ffff,
    ;
    let result: u128 = (channels as u128) * area;
    proof {
        assert(16 * width * new_height == 16 * (width * new_height)) by (nonlinear_arith);
        assert(channels * new_width * new_height == channels * (new_width * new_height))
            by (nonlinear_arith);
    }
    between <= limit && result <= limit
}

/// Prepares the input of an architecture from the pixels of a decoded image,
/// which must have as many channels as the configuration says.
pub fn prepare_image(raw: RawImage, config: &DatasetConfig) -> (r: Result<ImageInput, Error>)
    ensures
        match prepare_obstacle(raw, *config) {
            Some((kind, message)) => r matches Err(e) && e.is(kind, message),
            None => r matches Ok(input) && input.pixels@ == spec_planar(
                resized(
                    config.input_channels as nat,
                    raw.pixels@,
                    raw.width as nat,
                    raw.height as nat,
                    config.input_size[1] as nat,
                    config.input_size[0] as nat,
                ),
                config.input_channels as int,
                config.input_size[0] * config.input_size[1],
            ) && input.dims@ == seq![
                1usize,
                config.input_channels,
                config.input_size[0],
                config.input_size[1],
            ] && input.normalization == config.training.normalization,
        },
{
    match check_config(config) {
        Err(e) => {
            return Err(e);
        },
        Ok(_) => {},
    }
    let channels = config.input_channels;
    let height = config.input_size[0];
    let width = config.input_size[1];
    let expected = checked_volume(channels, raw.width as usize, raw.height as usize);
    if expected != Some(raw.pixels.len()) {
        return Err(
            Error::new(
                ErrorKind::Io,
                "decoded image does not hold width * height pixels: ",
                config.name.as_str(),
            ),
        );
    }
    if !fits_exec(channels, raw.width, width, height) {
        return Err(
            Error::new(ErrorKind::Io, "image is too large to resize: ", config.name.as_str()),
        );
    }
    proof {
        assert(channels * width * height == channels * (width * height)) by (nonlinear_arith);
        assert(0 <= width * height <= channels * width * height) by (nonlinear_arith)
            requires
                channels >= 1,
                width >= 0,
                height >= 0,
        ;
        assert(height * width == width * height) by (nonlinear_arith);
    }
    let count: usize = height * width;
    proof {
        assert(1 * raw.width * raw.height == raw.width * raw.height);
    }
    let interleaved = if channels == 1 {
        resize_luma(raw.pixels, raw.width, raw.height, width as u32, height as u32)
    } else {
        resize_rgb(raw.pixels, raw.width, raw.height, width as u32, height as u32)
    };
    proof {
        assert(channels * count == channels * width * height) by (nonlinear_arith)
            requires
                count == height * width,
        ;
    }
    let pixels = to_planar(&interleaved, channels, count);
    let input = ImageInput {
        pixels,
        dims: [1, channels, height, width],
        normalization: config.training.normalization,
    };
    proof {
        assert(input.dims@ =~= seq![1usize, channels, height, width]);
    }
    Ok(input)
}

/// True when an image of any width can be resized to the given size within
/// what the machine can allocate.
pub open spec fn any_width_fits(channels: nat, new_width: nat, new_height: nat) -> bool {
    new_height <= u32::MAX && new_width <= u32::MAX && resize_fits(
        channels,
        u32::MAX as nat,
        new_width,
        new_height,
    )
}

/// Cuts the buffer of a decoded image to the pixels of its dimensions.
fn cut_to_pixels(raw: RawImage, channels: usize) -> (cut: RawImage)
    requires
        raw.pixels@.len() >= channels * raw.width * raw.height,
    ensures
        cut.width == raw.width,
        cut.height == raw.height,
        cut.pixels@ == raw.pixels@.take(channels * raw.width * raw.height),
{
    let len = raw.pixels.len();
    let count = match checked_volume(channels, raw.width as usize, raw.height as usize) {
        Some(count) => count,
        None => len,
    };
    let mut cut = raw;
    cut.pixels.truncate(count);
    assert(cut.pixels@ =~= raw.pixels@.take(channels * raw.width * raw.height));
    cut
}

/// Prepares the input of an architecture from a decoded image. A
/// configuration of one channel takes the image as gray levels, one of three
/// channels as red, green and blue; any other configuration is rejected, and
/// so is one whose normalization does not match its channels. Of the buffer
/// of the image only the pixels of its dimensions are read. Beyond the
/// configuration, only an image too wide to resize to the configured size
/// fails; where an image of any width can be resized to it, every image gives
/// an input.
pub fn to_tensor(img: &DynamicImage, config: &DatasetConfig) -> (r: Result<ImageInput, Error>)
    ensures
        match config_obstacle(*config) {
            Some((kind, message)) => r matches Err(e) && e.is(kind, message),
            None => match r {
                Ok(input) => input.pixels@.len() == config.input_channels * config.input_size[0]
                    * config.input_size[1] && input.dims@ == seq![
                    1usize,
                    config.input_channels,
                    config.input_size[0],
                    config.input_size[1],
                ] && input.normalization == config.training.normalization,
                Err(e) => e.is(ErrorKind::Io, too_large_message(config.name@)),
            },
        },
        config_obstacle(*config) is None && any_width_fits(
            config.input_channels as nat,
            config.input_size[1] as nat,
            config.input_size[0] as nat,
        ) ==> r is Ok,
{
    match check_config(config) {
        Err(e) => {
            return Err(e);
        },
        Ok(_) => {},
    }
    let channels = config.input_channels;
    let decoded = if channels == 1 {
        luma_pixels(img)
    } else {
        rgb_pixels(img)
    };
    proof {
        assert(1 * decoded.width * decoded.height == decoded.width * decoded.height);
    }
    let raw = cut_to_pixels(decoded, channels);
    proof {
        assert(16 * raw.width * config.input_size[0] <= 16 * u32::MAX * config.input_size[0])
            by (nonlinear_arith)
            requires
                raw.width <= u32::MAX,
                config.input_size[0] >= 0,
        ;
    }
    let r = prepare_image(raw, config);
    proof {
        assert(config.input_channels * (config.input_size[0] * config.input_size[1])
            == config.input_channels * config.input_size[0] * config.input_size[1])
            by (nonlinear_arith);
    }
    r
}

} // verus!
