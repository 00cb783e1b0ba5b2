//! Decoding, resizing and encoding of images. The pixels are the codec
//! library's and the resizer's business; what is settled here is the size of
//! the result and the error that each failure becomes.

use crate::dimension::Dimension;
use crate::error::ErrorResponse;
use fast_image_resize::{ResizeOptions, Resizer};
use image::{ColorType, DynamicImage, ImageError, ImageFormat, ImageReader};
use std::io::{BufReader, Cursor};
use vstd::prelude::*;

verus! {

/// A decoded image of the codec library. What it holds is the library's.
#[verifier::external_type_specification]
#[verifier::external_body]
pub struct ExDynamicImage(DynamicImage);

/// The error of the codec library.
#[verifier::external_type_specification]
#[verifier::external_body]
pub struct ExImageError(ImageError);

/// The pixel layout of an image of the codec library.
#[verifier::external_type_specification]
#[verifier::external_body]
pub struct ExColorType(ColorType);

/// The width of an image in pixels, as `DynamicImage::width` reports it.
pub uninterp spec fn image_width(image: DynamicImage) -> u32;

/// The height of an image in pixels, as `DynamicImage::height` reports it.
pub uninterp spec fn image_height(image: DynamicImage) -> u32;

/// `DynamicImage::width` reads the width that the image's buffer records.
pub assume_specification[ DynamicImage::width ](image: &DynamicImage) -> (width: u32)
    ensures
        width == image_width(*image),
;

/// `DynamicImage::height` reads the height that the image's buffer records.
pub assume_specification[ DynamicImage::height ](image: &DynamicImage) -> (height: u32)
    ensures
        height == image_height(*image),
;

/// `DynamicImage::color` names the pixel layout of the image.
pub assume_specification[ DynamicImage::color ](image: &DynamicImage) -> (color: ColorType);

/// `DynamicImage::new` makes an image of zeroed pixels with the width and
/// height it is given. It panics where the buffer of the pixels, at most
/// sixteen bytes for each, is larger than a vector can be.
pub assume_specification[ DynamicImage::new ](w: u32, h: u32, color: ColorType) -> (image:
    DynamicImage)
    requires
        16 * w * h <= isize::MAX,
    ensures
        image_width(image) == w,
        image_height(image) == h,
;

/// The image that the codec library reads from bytes taken as the given
/// format; `None` where it reads none.
pub uninterp spec fn decoding(image_bytes: Seq<u8>, format: ImageFormat) -> Option<DynamicImage>;

/// Calls `ImageReader::with_format` and `decode` on the bytes, held in
/// memory. The decoder of the format is the codec library's own and reads
/// nothing but the bytes, so its result is a function of bytes and format
/// and is named `decoding`. `Some` holds the image, `None` stands for the
/// library's error.
#[verifier::external_body]
fn read_with_format(image_bytes: Vec<u8>, format: ImageFormat) -> (outcome: Option<DynamicImage>)
    ensures
        outcome == decoding(image_bytes@, format),
{
    let mut reader = BufReader::new(Cursor::new(image_bytes));
    ImageReader::with_format(&mut reader, format).decode().ok()
}

/// Calls `DynamicImage::write_to` on a buffer in memory and hands the buffer
/// out. Nothing is claimed of what comes out.
#[verifier::external_body]
fn write_with_format(image: &DynamicImage, format: ImageFormat) -> (outcome: Result<
    Vec<u8>,
    ImageError,
>) {
    let mut bytes: Vec<u8> = Vec::new();
    image.write_to(&mut Cursor::new(&mut bytes), format)?;
    Ok(bytes)
}

/// Calls `Resizer::resize` with a Lanczos3 convolution, the source fitted
/// into the proportions of the destination around its centre, alpha taken
/// into account. The resizer writes the pixels of the destination and leaves
/// its size; its error, if any, is dropped.
#[verifier::external_body]
fn resample(src_image: &DynamicImage, dst_image: &mut DynamicImage)
    ensures
        image_width(*final(dst_image)) == image_width(*old(dst_image)),
        image_height(*final(dst_image)) == image_height(*old(dst_image)),
{
    let options = ResizeOptions::new().fit_into_destination(None);
    let _ = Resizer::new().resize(src_image, dst_image, &options);
}

/// What the decoder's outcome means to the service: the image that was
/// read, or a decode error where none was.
pub open spec fn decoded_or_error(outcome: Option<DynamicImage>) -> Result<
    DynamicImage,
    ErrorResponse,
> {
    match outcome {
        Some(read) => Ok(read),
        None => Err(ErrorResponse::ImageDecodeError {}),
    }
}

/// What the decoder's outcome means to the service: the image, or that the
/// bytes could not be decoded.
pub fn decoded(outcome: Option<DynamicImage>) -> (image: Result<DynamicImage, ErrorResponse>)
    ensures
        image == decoded_or_error(outcome),
{
    match outcome {
        Some(read) => Ok(read),
        None => Err(ErrorResponse::ImageDecodeError {}),
    }
}

/// Decodes bytes of the given format: the image that the codec library reads
/// from them, and a decode error where it reads none.
pub fn decode_image(image_bytes: Vec<u8>, format: ImageFormat) -> (image: Result<
    DynamicImage,
    ErrorResponse,
>)
    ensures
        image == decoded_or_error(decoding(image_bytes@, format)),
{
    decoded(read_with_format(image_bytes, format))
}

/// What the encoder's outcome means to the service: the bytes with their
/// number, or that the image could not be written.
pub fn encoded(outcome: Result<Vec<u8>, ImageError>) -> (body: Result<(Vec<u8>, u64), ErrorResponse>)
    ensures
        match outcome {
            Ok(bytes) => body is Ok && body->Ok_0.0 == bytes && body->Ok_0.1 == bytes@.len(),
            Err(_) => body == Err::<(Vec<u8>, u64), ErrorResponse>(
                ErrorResponse::ImageWriteError {},
            ),
        },
{
    match outcome {
        Ok(bytes) => {
            let content_length = bytes.len() as u64;
            Ok((bytes, content_length))
        },
        Err(_) => Err(ErrorResponse::ImageWriteError {}),
    }
}

/// Encodes an image in the given format and counts the bytes. Whether it
/// encodes is the codec library's to say; a failure is always reported as a
/// write error.
pub fn encode_image(image: DynamicImage, format: ImageFormat) -> (body: Result<
    (Vec<u8>, u64),
    ErrorResponse,
>)
    ensures
        match body {
            Ok((bytes, content_length)) => content_length == bytes@.len(),
            Err(error) => error == (ErrorResponse::ImageWriteError {}),
        },
{
    encoded(write_with_format(&image, format))
}

/// Whether an image of the given size can be resized to `dimension`: the
/// size of the result can be worked out, and an image of that size can be
/// made.
pub open spec fn resizable(dimension: Dimension, src_width: u32, src_height: u32) -> bool {
    &&& dimension.fits(src_width, src_height)
    &&& 16 * dimension.target(src_width, src_height).0 * dimension.target(src_width, src_height).1
        <= isize::MAX
}

/// Resizes an image to `dimension`, keeping its proportions and its pixel
/// layout.
pub fn resize_image(dimension: Dimension, src_image: DynamicImage) -> (dst_image: DynamicImage)
    requires
        resizable(dimension, image_width(src_image), image_height(src_image)),
    ensures
        (image_width(dst_image), image_height(dst_image)) == dimension.target(
            image_width(src_image),
            image_height(src_image),
        ),
{
    let (new_width, new_height) = dimension.target_size(
        src_image.width(),
        src_image.height(),
    ).unwrap();
    let mut dst_image = DynamicImage::new(new_width, new_height, src_image.color());
    resample(&src_image, &mut dst_image);
    dst_image
}

/// Resizes an image to `dimension` where that can be done, and says `None`
/// where it cannot.
pub fn try_resize_image(dimension: Dimension, src_image: DynamicImage) -> (dst_image: Option<
    DynamicImage,
>)
    ensures
        dst_image is Some <==> resizable(
            dimension,
            image_width(src_image),
            image_height(src_image),
        ),
        dst_image is Some ==> (image_width(dst_image->0), image_height(dst_image->0))
            == dimension.target(image_width(src_image), image_height(src_image)),
{
    match dimension.target_size(src_image.width(), src_image.height()) {
        Some((new_width, new_height)) => {
            if buffer_fits(new_width, new_height) {
                Some(resize_image(dimension, src_image))
            } else {
                None
            }
        },
        None => None,
    }
}

/// Whether the pixels of an image of this size, sixteen bytes for each at
/// most, fit in a vector.
fn buffer_fits(width: u32, height: u32) -> (fit: bool)
    ensures
        fit == (16 * width * height <= isize::MAX),
{
    assert(width * height <= 0xFFFF_FFFF * 0xFFFF_FFFF && 16 * width * height == 16 * (width
        * height)) by (nonlinear_arith)
        requires
            width <= 0xFFFF_FFFF,
            height <= 0xFFFF_FFFF,
    ;
    let pixels: u64 = width as u64 * height as u64;
    pixels <= (isize::MAX / 16) as u64
}

} // verus!
