//! Decoding the bytes of an image file into a raster.

use vstd::prelude::*;
use vstd::string::*;
use crate::container::error_text;
use crate::raster::{Raster, SourceImage};

verus! {

/// Why no image came out of a file.
#[derive(Clone, Debug, PartialEq, Eq)]
pub enum DecodeError {
    /// The file is not there.
    NotFound,
    /// The format of the file is not one that can be decoded.
    UnsupportedFormat,
    /// The file could not be read, or its data is damaged or cut short.
    DecodeFailure(String),
}

/// What reading the image file gave.
#[derive(Clone, Debug, PartialEq, Eq)]
pub enum InputFile {
    /// There is no file at the path.
    Missing,
    /// The file is there and could not be read; the text says why.
    Unreadable(String),
    /// The bytes of the file.
    Contents(Vec<u8>),
}

/// `image::ImageFormat`, carried through as it is.
#[verifier::external_type_specification]
#[verifier::external_body]
pub struct ExImageFormat(image::ImageFormat);

/// `image::ImageFormat::from_path`: the format that the extension of `path`
/// stands for, if any. Which part of a path is its file name depends on the
/// platform's path rules, so that only this is stated: a path without a dot
/// has no extension, and so no format.
#[verifier::external_body]
fn format_of(path: &str) -> (format: Option<image::ImageFormat>)
    ensures
        !path@.contains('.') ==> format is None,
{
    image::ImageFormat::from_path(path).ok()
}

/// `image::ImageReader::decode` on `bytes` read as `format`, with the default
/// limits, and the image converted to eight-bit RGBA: its width, its height
/// and the buffer that holds its pixels. The decoders are many and some of
/// them compute in floating point, so that nothing is stated of the result.
#[verifier::external_body]
fn decode_rgba(bytes: &[u8], format: image::ImageFormat) -> (decoded: Result<
    (u32, u32, Vec<u8>),
    image::ImageError,
>) {
    match image::ImageReader::with_format(std::io::Cursor::new(bytes), format).decode() {
        Ok(image) => {
            let rgba = image.into_rgba8();
            Ok((rgba.width(), rgba.height(), rgba.into_raw()))
        },
        Err(e) => Err(e),
    }
}

/// Whether an `image::ImageError` is of the variant `Unsupported`.
#[verifier::external_body]
fn is_unsupported(error: &image::ImageError) -> (unsupported: bool) {
    matches!(error, image::ImageError::Unsupported(_))
}

/// The raster of a decoded image, given its dimensions and the buffer that
/// the decoder filled.
pub open spec fn raster_of(width: u32, height: u32, raw: Seq<u8>) -> Raster {
    Raster {
        width: width as nat,
        height: height as nat,
        pixels: raw.take(4 * width * height),
    }
}

/// The image that a decoder's output stands for. A buffer may be longer than
/// its dimensions call for, and only its front is the image; one that is
/// shorter is no image.
pub fn accept_pixels(width: u32, height: u32, raw: Vec<u8>) -> (image: Result<
    SourceImage,
    DecodeError,
>)
    ensures
        raw@.len() >= 4 * width * height ==> (image matches Ok(i) && i@ == raster_of(
            width,
            height,
            raw@,
        )),
        raw@.len() < 4 * width * height ==> image is Err && image->Err_0 is DecodeFailure,
{
    match SourceImage::from_raw(width, height, raw) {
        Some(image) => Ok(image),
        None => Err(
            DecodeError::DecodeFailure(
                String::from_str("the decoder returned fewer pixels than the image has"),
            ),
        ),
    }
}

/// The error that stands for a decoder's refusal.
pub fn refusal(unsupported: bool, detail: String) -> (error: DecodeError)
    ensures
        unsupported ==> error == DecodeError::UnsupportedFormat,
        !unsupported ==> error == DecodeError::DecodeFailure(detail),
{
    if unsupported {
        DecodeError::UnsupportedFormat
    } else {
        DecodeError::DecodeFailure(detail)
    }
}

/// Decodes the image file at `path`, given what reading it gave.
///
/// The format is taken from the extension of `path`, not from the bytes.
/// A missing file is `NotFound`, and nothing else is. A file that could not
/// be read is a `DecodeFailure` with the reason given. For the contents of a
/// file the decoder decides: a missing or unknown extension or a format that
/// it does not handle is `UnsupportedFormat`, any other refusal a
/// `DecodeFailure`.
pub fn decode(path: &str, file: InputFile) -> (image: Result<SourceImage, DecodeError>)
    ensures
        file is Missing <==> image == Err::<SourceImage, DecodeError>(DecodeError::NotFound),
        file matches InputFile::Unreadable(reason) ==> image == Err::<SourceImage, DecodeError>(
            DecodeError::DecodeFailure(reason),
        ),
        file is Contents && !path@.contains('.') ==> image == Err::<SourceImage, DecodeError>(
            DecodeError::UnsupportedFormat,
        ),
        image matches Ok(i) ==> file is Contents && i@.well_formed(),
{
    match file {
        InputFile::Missing => Err(DecodeError::NotFound),
        InputFile::Unreadable(reason) => Err(DecodeError::DecodeFailure(reason)),
        InputFile::Contents(bytes) => {
            let format = match format_of(path) {
                Some(format) => format,
                None => {
                    return Err(DecodeError::UnsupportedFormat);
                },
            };
            match decode_rgba(bytes.as_slice(), format) {
                Ok((width, height, raw)) => accept_pixels(width, height, raw),
                Err(e) => Err(refusal(is_unsupported(&e), error_text(&e))),
            }
        },
    }
}

} // verus!
