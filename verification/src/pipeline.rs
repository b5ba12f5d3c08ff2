//! The image pipeline: decode the stored bytes, resize the picture, encode it
//! in the negotiated format.
//!
//! Resizing is exact fit: the output has the requested width and height
//! whatever the proportions of the input were, so a picture may come out
//! stretched. Pixels are resampled with a linear (triangle) filter. Picking
//! single pixels is there for a caller that asks for it by name, and is never
//! what the pipeline does by itself.
//!
//! The format of the stored bytes is found from the signature at their start
//! and has nothing to do with the format that the output is written in.
//!
//! No side of a picture that is resized, before or after, is above
//! [`MAX_SIDE`]: beyond it the positions of pixels are no longer computed
//! closely enough.

use crate::errors::{Failure, ObjectError};
use crate::negotiation::SupportedFormat;
use crate::params::Dimensions;
use vstd::prelude::*;
use vstd::string::*;

verus! {

/// A format that stored bytes are read in.
#[derive(Clone, Copy, Debug, PartialEq, Eq, Structural)]
pub enum InputFormat {
    Png,
    Jpeg,
}

/// How pixels are resampled.
#[derive(Clone, Copy, Debug, PartialEq, Eq, Structural)]
pub enum Filter {
    /// Linear interpolation between neighbouring pixels. The pipeline uses it
    /// wherever no filter is named.
    Triangle,
    /// The nearest pixel, unweighted. Fast and coarse: shrunk pictures come
    /// out visibly degraded.
    Nearest,
}

/// The pixel buffer of the `image` crate.
#[verifier::external_type_specification]
#[verifier::external_body]
pub struct ExDynamicImage(image::DynamicImage);

/// The error of the `image` crate's decoders and encoders.
#[verifier::external_type_specification]
#[verifier::external_body]
pub struct ExImageError(image::ImageError);

/// The number of pixels in a row of a pixel buffer.
pub uninterp spec fn pixel_width(pixels: image::DynamicImage) -> u32;

/// The number of rows of a pixel buffer.
pub uninterp spec fn pixel_height(pixels: image::DynamicImage) -> u32;

/// The format that the signature at the start of a byte sequence stands for,
/// where it is one that is read here.
pub uninterp spec fn sniffed(bytes: Seq<u8>) -> Option<InputFormat>;

/// The picture that the decoder of a format reads from a byte sequence, or
/// nothing where it reads none.
pub uninterp spec fn decoded_as(bytes: Seq<u8>, format: InputFormat) -> Option<
    image::DynamicImage,
>;

/// The picture that resampling a pixel buffer to a given width and height
/// with a given filter gives.
pub uninterp spec fn resized(pixels: image::DynamicImage, width: u32, height: u32, filter: Filter)
    -> image::DynamicImage;

/// The bytes that the encoder of a format writes for a pixel buffer, or
/// nothing where it fails.
pub uninterp spec fn encoded(pixels: image::DynamicImage, format: SupportedFormat) -> Option<
    Seq<u8>,
>;

/// Finds the format with `image::guess_format`, which compares the start of
/// the bytes with a fixed table of signatures and reads nothing else.
///
/// The contract names the result. Of the formats in the table only PNG and
/// JPEG are handed on; any other, and bytes with no known signature, give
/// `None`.
#[verifier::external_body]
fn guess_format(bytes: &[u8]) -> (r: Option<InputFormat>)
    ensures
        r == sniffed(bytes@),
{
    match image::guess_format(bytes) {
        Ok(image::ImageFormat::Png) => Some(InputFormat::Png),
        Ok(image::ImageFormat::Jpeg) => Some(InputFormat::Jpeg),
        _ => None,
    }
}

/// Decodes with `image::load_from_memory_with_format`: the decoder of the
/// given format, with the crate's default limits on what it allocates.
///
/// The contract names the decoder's result: the same bytes decode to the
/// same picture or fail alike. With the format given, the call consults none
/// of the crate's process-wide hooks.
#[verifier::external_body]
fn load_from_memory_with_format(bytes: &[u8], format: InputFormat) -> (r: Result<
    image::DynamicImage,
    image::ImageError,
>)
    ensures
        r matches Ok(pixels) ==> decoded_as(bytes@, format) == Some(pixels),
        r is Err ==> decoded_as(bytes@, format) is None,
{
    let tag = match format {
        InputFormat::Png => image::ImageFormat::Png,
        InputFormat::Jpeg => image::ImageFormat::Jpeg,
    };
    image::load_from_memory_with_format(bytes, tag)
}

/// The message of an `image::ImageError`, from its `Display`. Nothing is
/// claimed of the text.
#[verifier::external_body]
fn image_error_text(error: &image::ImageError) -> String {
    error.to_string()
}

/// `image::DynamicImage::width`.
#[verifier::external_body]
fn width_of(pixels: &image::DynamicImage) -> (r: u32)
    ensures
        r == pixel_width(*pixels),
{
    pixels.width()
}

/// `image::DynamicImage::height`.
#[verifier::external_body]
fn height_of(pixels: &image::DynamicImage) -> (r: u32)
    ensures
        r == pixel_height(*pixels),
{
    pixels.height()
}

/// Resamples with `image::DynamicImage::resize_exact` and the filter asked
/// for.
///
/// The new buffer has the width and height that were asked for, as the
/// method documents. `requires` leaves out the inputs on which it panics:
///
/// - A buffer that it allocates is longer than a vector can be: the output,
///   or an intermediate buffer of the source's width and the new height at
///   sixteen bytes a pixel.
/// - The weights of an output pixel sum to zero, and the pixel is no number.
///   The centre of an output pixel among the source's pixels is computed in
///   single precision: a quotient, a product and a difference, each rounded
///   to 24 bits. With no side above `MAX_SIDE` the three roundings put it
///   off by less than half a pixel, so the source pixel nearest to the true
///   centre lies less than one pixel from the computed one, inside the
///   window that is summed over, and has a weight above zero under the
///   triangle filter. The nearest filter weighs every pixel of its window
///   with one, and its window is never empty.
#[verifier::external_body]
fn resize_exact(pixels: &image::DynamicImage, width: u32, height: u32, filter: Filter) -> (r:
    image::DynamicImage)
    requires
        resizable(extent_of(*pixels), Dimensions { width, height }),
    ensures
        r == resized(*pixels, width, height, filter),
        pixel_width(r) == width,
        pixel_height(r) == height,
{
    let kernel = match filter {
        Filter::Triangle => image::imageops::FilterType::Triangle,
        Filter::Nearest => image::imageops::FilterType::Nearest,
    };
    pixels.resize_exact(width, height, kernel)
}

/// Encodes with `image::DynamicImage::write_to` into a buffer in memory.
///
/// The contract names the encoder's result. The method converts the pixels
/// to a colour type that the format can hold, and reports what it cannot
/// write as an error.
#[verifier::external_body]
fn write_to(pixels: &image::DynamicImage, format: SupportedFormat) -> (r: Result<
    Vec<u8>,
    image::ImageError,
>)
    ensures
        r matches Ok(bytes) ==> encoded(*pixels, format) == Some(bytes@),
        r is Err ==> encoded(*pixels, format) is None,
{
    let mut out = std::io::Cursor::new(Vec::new());
    let tag = match format {
        SupportedFormat::Png => image::ImageFormat::Png,
        SupportedFormat::Jpeg => image::ImageFormat::Jpeg,
    };
    pixels.write_to(&mut out, tag)?;
    Ok(out.into_inner())
}

/// The bytes that the widest pixel takes: four channels of four bytes.
pub const WIDEST_PIXEL: u64 = 16;

/// The longest side, in pixels, of a picture that is resized and of the
/// picture that comes of it: two to the power of 21.
pub const MAX_SIDE: u32 = 0x20_0000;

/// Whether the buffers that resizing allocates can be addressed on this
/// machine: the output, and one of the source's width and the target's
/// height.
pub open spec fn addressable(source_width: u32, target: Dimensions) -> bool {
    &&& WIDEST_PIXEL * target.width * target.height <= isize::MAX
    &&& WIDEST_PIXEL * source_width * target.height <= isize::MAX
}

/// Whether a picture of a given width and height can be resized to a target:
/// the target has both sides positive, no side of either is above
/// `MAX_SIDE`, and the buffers can be addressed on this machine.
pub open spec fn resizable(source: (u32, u32), target: Dimensions) -> bool {
    &&& target.wf()
    &&& source.0 <= MAX_SIDE
    &&& source.1 <= MAX_SIDE
    &&& target.width <= MAX_SIDE
    &&& target.height <= MAX_SIDE
    &&& addressable(source.0, target)
}

/// The picture that decoding gives: the one that the decoder of the sniffed
/// format reads, or nothing where the signature is neither PNG's nor JPEG's
/// or that decoder reads no picture.
pub open spec fn decoded(bytes: Seq<u8>) -> Option<image::DynamicImage> {
    match sniffed(bytes) {
        Some(format) => decoded_as(bytes, format),
        None => None,
    }
}

/// The width and height of a pixel buffer.
pub open spec fn extent_of(pixels: image::DynamicImage) -> (u32, u32) {
    (pixel_width(pixels), pixel_height(pixels))
}

/// The picture that the pipeline's resizing makes of a pixel buffer: the
/// buffer resampled to the target's width and height with the triangle
/// filter.
pub open spec fn fitted(pixels: image::DynamicImage, target: Dimensions) -> image::DynamicImage {
    resized(pixels, target.width, target.height, Filter::Triangle)
}

/// A decoded picture: a buffer of pixels of a known width and height.
pub struct DecodedImage {
    pixels: image::DynamicImage,
}

impl View for DecodedImage {
    type V = image::DynamicImage;

    closed spec fn view(&self) -> image::DynamicImage {
        self.pixels
    }
}

impl DecodedImage {
    /// The picture's width and height.
    pub open spec fn extent(&self) -> (u32, u32) {
        extent_of(self@)
    }

    /// The picture's width in pixels.
    pub fn width(&self) -> (r: u32)
        ensures
            r == self.extent().0,
    {
        width_of(&self.pixels)
    }

    /// The picture's height in pixels.
    pub fn height(&self) -> (r: u32)
        ensures
            r == self.extent().1,
    {
        height_of(&self.pixels)
    }
}

/// An encoded picture with the media type that it is written in.
#[derive(Clone, Debug, PartialEq, Eq)]
pub struct EncodedOutput {
    pub bytes: Vec<u8>,
    pub content_type: String,
}

/// Decodes stored bytes into a picture.
///
/// Fails with `Decode` exactly where the bytes start with the signature of
/// neither PNG nor JPEG, or the decoder of their format reads no picture from
/// them.
pub fn decode(bytes: &[u8]) -> (r: Result<DecodedImage, Failure>)
    ensures
        match decoded(bytes@) {
            Some(pixels) => r matches Ok(picture) && picture@ == pixels,
            None => r matches Err(Failure::Decode(_)),
        },
{
    match guess_format(bytes) {
        None => Err(Failure::Decode(String::from_str("the bytes are neither PNG nor JPEG"))),
        Some(format) => match load_from_memory_with_format(bytes, format) {
            Ok(pixels) => Ok(DecodedImage { pixels }),
            Err(error) => Err(Failure::Decode(image_error_text(&error))),
        },
    }
}

/// Whether a picture can be resized to a target: a target with a side of zero
/// is no size, a side above `MAX_SIDE` is too long, and a buffer that this
/// machine cannot address is too large.
pub fn can_resize(image: &DecodedImage, target: Dimensions) -> (r: bool)
    ensures
        r == resizable(image.extent(), target),
{
    if target.width == 0 || target.height == 0 {
        return false;
    }
    let source_width: u32 = image.width();
    if source_width > MAX_SIDE || image.height() > MAX_SIDE || target.width > MAX_SIDE
        || target.height > MAX_SIDE {
        return false;
    }
    let limit: u128 = isize::MAX as u128;
    let pixel: u128 = WIDEST_PIXEL as u128;
    let height: u128 = target.height as u128;
    let width: u128 = target.width as u128;
    let source: u128 = source_width as u128;
    assert(pixel * width * height <= 16 * 0xffff_ffff * 0xffff_ffff) by (nonlinear_arith)
        requires
            pixel == 16,
            0 <= width <= 0xffff_ffff,
            0 <= height <= 0xffff_ffff,
    ;
    assert(pixel * source * height <= 16 * 0xffff_ffff * 0xffff_ffff) by (nonlinear_arith)
        requires
            pixel == 16,
            0 <= source <= 0xffff_ffff,
            0 <= height <= 0xffff_ffff,
    ;
    pixel * width * height <= limit && pixel * source * height <= limit
}

/// Resizes a picture to exactly the target's width and height with a named
/// filter.
///
/// The picture can be resized to the target: [`can_resize`] tests that.
pub fn resize_with(image: &DecodedImage, target: Dimensions, filter: Filter) -> (out: DecodedImage)
    requires
        resizable(image.extent(), target),
    ensures
        out@ == resized(image@, target.width, target.height, filter),
        out.extent() == (target.width, target.height),
{
    DecodedImage { pixels: resize_exact(&image.pixels, target.width, target.height, filter) }
}

/// Resizes a picture to exactly the target's width and height, resampling
/// with the triangle filter.
///
/// The picture can be resized to the target: [`try_resize`] tests that first.
/// A picture that already has the target's size keeps it.
pub fn resize(image: &DecodedImage, target: Dimensions) -> (out: DecodedImage)
    requires
        resizable(image.extent(), target),
    ensures
        out@ == fitted(image@, target),
        out.extent() == (target.width, target.height),
        image.extent() == (target.width, target.height) ==> out.extent() == image.extent(),
{
    resize_with(image, target, Filter::Triangle)
}

/// Resizes a picture to a target that it can be resized to, and says so where
/// it cannot: a target with a side of zero is never resized to.
pub fn try_resize(image: &DecodedImage, target: Dimensions) -> (r: Option<DecodedImage>)
    ensures
        match r {
            Some(out) => resizable(image.extent(), target) && out@ == fitted(image@, target)
                && out.extent() == (target.width, target.height),
            None => !resizable(image.extent(), target),
        },
{
    if can_resize(image, target) {
        Some(resize(image, target))
    } else {
        None
    }
}

/// Encodes a picture in a format.
///
/// Fails with `Encode` exactly where the encoder fails: nothing is ever
/// returned of an output that was not written to its end.
pub fn write_image_to_bytes(image: &DecodedImage, format: SupportedFormat) -> (r: Result<
    Vec<u8>,
    Failure,
>)
    ensures
        match encoded(image@, format) {
            Some(bytes) => r matches Ok(out) && out@ == bytes,
            None => r matches Err(Failure::Encode(_)),
        },
{
    match write_to(&image.pixels, format) {
        Ok(bytes) => Ok(bytes),
        Err(error) => Err(Failure::Encode(image_error_text(&error))),
    }
}

/// Encodes a picture in the negotiated format and labels the bytes with the
/// format's media type.
pub fn encode(image: &DecodedImage, format: SupportedFormat) -> (r: Result<EncodedOutput, Failure>)
    ensures
        match encoded(image@, format) {
            Some(bytes) => r matches Ok(out) && out.bytes@ == bytes && out.content_type@
                == format.mime_text(),
            None => r matches Err(Failure::Encode(_)),
        },
{
    match write_image_to_bytes(image, format) {
        Ok(bytes) => Ok(EncodedOutput { bytes, content_type: String::from_str(format.mime_type()) }),
        Err(failure) => Err(failure),
    }
}

/// Turns what the object store answered for a key into a picture.
///
/// Fails with `Object`, the key and the store's error where the store handed
/// out no bytes, and with `Decode` where it did and they are no picture.
pub fn get_image(path: &str, fetched: Result<Vec<u8>, ObjectError>) -> (r: Result<
    DecodedImage,
    Failure,
>)
    ensures
        match fetched {
            Err(error) => r matches Err(Failure::Object(key, e)) && key@ == path@ && e == error,
            Ok(bytes) => match decoded(bytes@) {
                Some(pixels) => r matches Ok(picture) && picture@ == pixels,
                None => r matches Err(Failure::Decode(_)),
            },
        },
{
    match fetched {
        Err(error) => Err(Failure::Object(String::from_str(path), error)),
        Ok(bytes) => decode(bytes.as_slice()),
    }
}

/// What resizing and encoding make of a decoded picture: the bytes of the
/// output, or nothing where the picture cannot be resized to the target or
/// the encoder fails.
pub open spec fn rendered(pixels: image::DynamicImage, target: Dimensions, format: SupportedFormat)
    -> Option<Seq<u8>> {
    if resizable(extent_of(pixels), target) {
        encoded(fitted(pixels, target), format)
    } else {
        None
    }
}

/// Resizes a picture to the target and encodes it in the format.
///
/// Fails with `Encode` where no output can be made: the target has a side of
/// zero, a side of the picture or of the target is above `MAX_SIDE`, the
/// buffers cannot be addressed on this machine, or the encoder fails. An
/// output is the encoding of a picture that has exactly the target's width
/// and height, both positive.
pub fn render(image: &DecodedImage, target: Dimensions, format: SupportedFormat) -> (r: Result<
    EncodedOutput,
    Failure,
>)
    ensures
        match rendered(image@, target, format) {
            Some(bytes) => r matches Ok(out) && out.bytes@ == bytes && out.content_type@
                == format.mime_text(),
            None => r matches Err(Failure::Encode(_)),
        },
        !target.wf() ==> r matches Err(Failure::Encode(_)),
        r is Ok ==> target.wf() && extent_of(fitted(image@, target)) == (
            target.width,
            target.height,
        ),
{
    match try_resize(image, target) {
        Some(scaled) => encode(&scaled, format),
        None => Err(Failure::Encode(String::from_str("the requested size cannot be made"))),
    }
}

/// The whole transformation of stored bytes: decode, resize to the target,
/// encode in the format.
///
/// Fails with `Decode` exactly where the bytes are no picture, and with
/// `Encode` where they are one and the target has a side of zero. The
/// picture that is encoded has exactly the target's width and height.
pub fn transform(bytes: &[u8], target: Dimensions, format: SupportedFormat) -> (r: Result<
    EncodedOutput,
    Failure,
>)
    ensures
        match decoded(bytes@) {
            None => r matches Err(Failure::Decode(_)),
            Some(pixels) => match rendered(pixels, target, format) {
                Some(output) => r matches Ok(out) && out.bytes@ == output && out.content_type@
                    == format.mime_text(),
                None => r matches Err(Failure::Encode(_)),
            },
        },
        r is Ok ==> target.wf() && (decoded(bytes@) matches Some(pixels) && extent_of(
            fitted(pixels, target),
        ) == (target.width, target.height)),
{
    match decode(bytes) {
        Err(failure) => Err(failure),
        Ok(image) => render(&image, target, format),
    }
}

} // verus!
