//! The ICO container around one PNG-compressed image.
//!
//! A container with a single image is a six-byte header, one sixteen-byte
//! directory entry and the image data. The layout is stated here as a spec
//! function; the bytes themselves come from the `image` crate's encoder.

use vstd::prelude::*;
use crate::raster::SourceImage;

verus! {

/// Offset of the image data in a container with a single entry: behind the
/// header of six bytes and one directory entry of sixteen.
pub const DATA_OFFSET: usize = 22;

/// The two bytes of `n`, least significant first.
pub open spec fn le16(n: nat) -> Seq<u8> {
    seq![(n % 256) as u8, (n / 256 % 256) as u8]
}

/// The four bytes of `n`, least significant first.
pub open spec fn le32(n: nat) -> Seq<u8> {
    seq![
        (n % 256) as u8,
        (n / 256 % 256) as u8,
        (n / 65536 % 256) as u8,
        (n / 16777216 % 256) as u8,
    ]
}

/// The header of a container that holds `count` icon images: a reserved
/// zero, the type (1 for icons) and the count.
pub open spec fn icon_header(count: nat) -> Seq<u8> {
    le16(0) + le16(1) + le16(count)
}

/// The directory entry of an RGBA image whose data is `data_len` bytes long
/// and starts at `offset`. A side of 256 pixels is stored as zero.
pub open spec fn icon_entry(width: nat, height: nat, data_len: nat, offset: nat) -> Seq<u8> {
    seq![(width % 256) as u8, (height % 256) as u8, 0u8, 0u8] + le16(0) + le16(32) + le32(
        data_len % 0x1_0000_0000,
    ) + le32(offset)
}

/// A container that holds the single image `data`, which starts at offset
/// 22.
pub open spec fn icon_file(width: nat, height: nat, data: Seq<u8>) -> Seq<u8> {
    icon_header(1) + icon_entry(width, height, data.len(), 22) + data
}

/// The side that a directory entry's size byte stands for.
pub open spec fn entry_side(byte: u8) -> nat {
    if byte == 0 {
        256
    } else {
        byte as nat
    }
}

/// The pixel dimensions that the first directory entry of `bytes` declares,
/// if `bytes` opens with the header of an icon container that has an entry.
pub open spec fn declared_dimensions(bytes: Seq<u8>) -> Option<(nat, nat)> {
    let reserved_is_zero = bytes[0] == 0 && bytes[1] == 0;
    let holds_icons = bytes[2] == 1 && bytes[3] == 0;
    let has_entry = bytes[4] != 0 || bytes[5] != 0;
    if bytes.len() >= 22 && reserved_is_zero && holds_icons && has_entry {
        Some((entry_side(bytes[6]), entry_side(bytes[7])))
    } else {
        None
    }
}

/// Reading back the directory of a container gives the dimensions that it
/// was built with, whatever the image data, and the image data stands
/// unchanged behind the directory.
pub proof fn lemma_container_round_trip(width: nat, height: nat, data: Seq<u8>)
    requires
        1 <= width <= 256,
        1 <= height <= 256,
    ensures
        declared_dimensions(icon_file(width, height, data)) == Some((width, height)),
        icon_file(width, height, data).len() == 22 + data.len(),
        icon_file(width, height, data).subrange(22, 22 + data.len() as int) == data,
{
    let file = icon_file(width, height, data);
    assert(file.len() == 22 + data.len());
    assert(file.subrange(22, 22 + data.len() as int) =~= data);
    assert(file[6] == (width % 256) as u8);
    assert(file[7] == (height % 256) as u8);
}

/// Reads the dimensions that the first directory entry of a container
/// declares.
pub fn read_dimensions(bytes: &[u8]) -> (dimensions: Option<(u32, u32)>)
    ensures
        match dimensions {
            Some((w, h)) => declared_dimensions(bytes@) == Some((w as nat, h as nat)),
            None => declared_dimensions(bytes@) is None,
        },
{
    if bytes.len() < DATA_OFFSET {
        return None;
    }
    if bytes[0] != 0 || bytes[1] != 0 || bytes[2] != 1 || bytes[3] != 0 {
        return None;
    }
    if bytes[4] == 0 && bytes[5] == 0 {
        return None;
    }
    let width: u32 = if bytes[6] == 0 { 256 } else { bytes[6] as u32 };
    let height: u32 = if bytes[7] == 0 { 256 } else { bytes[7] as u32 };
    Some((width, height))
}

/// Whether `bytes` is laid out as a container with a single `width` by
/// `height` image: header, directory entry, and whatever follows as data.
pub open spec fn is_container(bytes: Seq<u8>, width: nat, height: nat) -> bool {
    &&& bytes.len() >= 22
    &&& bytes == icon_file(width, height, bytes.skip(22))
}

/// What the `image` crate's ICO encoder writes for a raster of eight-bit
/// RGBA pixels with the given dimensions: the bytes of the container, or
/// nothing where the encoder refuses the raster.
pub uninterp spec fn icon_encoding(pixels: Seq<u8>, width: u32, height: u32) -> Option<Seq<u8>>;

/// `image::ImageError`, carried through as it is.
#[verifier::external_type_specification]
#[verifier::external_body]
pub struct ExImageError(image::ImageError);

/// `image::codecs::ico::IcoEncoder::write_image` on an empty buffer, for
/// eight-bit RGBA pixels. It panics unless the buffer holds four bytes per
/// pixel. Its result depends on its arguments alone, and is named. It
/// compresses the pixels as PNG and refuses a width or height outside
/// `1..=256`; where it succeeds it has written the header for one image, one
/// directory entry with 32 bits per pixel and offset 22, and the PNG stream.
#[verifier::external_body]
fn ico_encode(pixels: &[u8], width: u32, height: u32) -> (encoded: Result<
    Vec<u8>,
    image::ImageError,
>)
    requires
        pixels@.len() == 4 * width * height,
    ensures
        match encoded {
            Ok(bytes) => icon_encoding(pixels@, width, height) == Some(bytes@),
            Err(_) => icon_encoding(pixels@, width, height) is None,
        },
        encoded matches Ok(bytes) ==> {
            &&& 1 <= width <= 256
            &&& 1 <= height <= 256
            &&& is_container(bytes@, width as nat, height as nat)
        },
{
    let mut bytes: Vec<u8> = Vec::new();
    let encoder = image::codecs::ico::IcoEncoder::new(&mut bytes);
    match image::ImageEncoder::write_image(
        encoder,
        pixels,
        width,
        height,
        image::ExtendedColorType::Rgba8,
    ) {
        Ok(()) => Ok(bytes),
        Err(e) => Err(e),
    }
}

/// The `Display` text of an `image::ImageError`.
#[verifier::external_body]
pub(crate) fn error_text(error: &image::ImageError) -> (text: String) {
    error.to_string()
}

/// Serialises a raster into a container with a single PNG-compressed image.
///
/// The result is the encoder's: the bytes that it writes for the raster, and
/// its refusal where it writes none. It refuses every raster with a side
/// outside `1..=256`. What it writes is laid out as a container for the
/// raster's dimensions, so that its directory declares them.
pub fn encode_icon(raster: &SourceImage) -> (encoded: Result<Vec<u8>, String>)
    ensures
        match encoded {
            Ok(bytes) => icon_of(raster@.pixels, raster@.width, raster@.height) == Some(bytes@),
            Err(_) => icon_of(raster@.pixels, raster@.width, raster@.height) is None,
        },
        encoded matches Ok(bytes) ==> {
            &&& is_icon_of(bytes@, raster@.pixels, raster@.width, raster@.height)
            &&& declared_dimensions(bytes@) == Some((raster@.width, raster@.height))
        },
        !(1 <= raster@.width <= 256 && 1 <= raster@.height <= 256) ==> encoded is Err,
{
    let width = raster.width();
    let height = raster.height();
    let pixels = raster.pixels();
    match ico_encode(pixels, width, height) {
        Ok(bytes) => {
            proof {
                lemma_container_round_trip(width as nat, height as nat, bytes@.skip(22));
            }
            Ok(bytes)
        },
        Err(e) => Err(error_text(&e)),
    }
}

/// The container that the encoder makes of the `width` by `height` image
/// with the given pixels, if it makes one.
pub open spec fn icon_of(pixels: Seq<u8>, width: nat, height: nat) -> Option<Seq<u8>> {
    icon_encoding(pixels, width as u32, height as u32)
}

/// Whether `bytes` is the container of the `width` by `height` image with
/// the given pixels.
pub open spec fn is_icon_of(bytes: Seq<u8>, pixels: Seq<u8>, width: nat, height: nat) -> bool {
    &&& 1 <= width <= 256
    &&& 1 <= height <= 256
    &&& icon_of(pixels, width, height) == Some(bytes)
    &&& is_container(bytes, width, height)
}

} // verus!
