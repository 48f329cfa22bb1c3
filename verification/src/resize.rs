//! Resampling a decoded image to a square of a given side.

use vstd::prelude::*;
use std::borrow::Cow;
use crate::raster::SourceImage;
use crate::size::IconSize;

verus! {

/// Whether the buffers that resampling an image of the given width to a
/// square of the given side allocates can be addressed: an intermediate one
/// of `width` by `side` pixels with four 32-bit channels, and the result.
pub open spec fn resample_fits(width: nat, side: nat) -> bool {
    &&& 16 * width * side <= isize::MAX
    &&& 4 * side * side <= isize::MAX
}

/// `image::imageops::resize` with the `Lanczos3` filter, from `width` by
/// `height` eight-bit RGBA pixels to a square of `side` by `side`. The
/// function allocates a `width` by `side` buffer of 32-bit floating-point
/// RGBA samples and a `side` by `side` buffer for the result, and panics
/// where the length of either overflows. Its samples are computed in
/// floating point, so that nothing is stated of them but their number.
#[verifier::external_body]
fn resample(pixels: &[u8], width: u32, height: u32, side: u32) -> (resized: Vec<u8>)
    requires
        pixels@.len() == 4 * width * height,
        side >= 1,
        resample_fits(width as nat, side as nat),
    ensures
        resized@.len() == 4 * side * side,
{
    let source: image::ImageBuffer<image::Rgba<u8>, &[u8]> =
        image::ImageBuffer::from_raw(width, height, pixels).unwrap();
    image::imageops::resize(&source, side, side, image::imageops::FilterType::Lanczos3).into_raw()
}

impl SourceImage {
    /// Whether the image can be brought to `size` within the address space
    /// of this machine: it has that size already, or the buffers that
    /// resampling allocates can be addressed.
    pub fn can_resize(&self, size: IconSize) -> (fits: bool)
        ensures
            fits == (self@.is_square(size@) || resample_fits(self@.width, size@)),
    {
        if self.width() == size.get() && self.height() == size.get() {
            return true;
        }
        let side = size.get() as u128;
        let width = self.width() as u128;
        let limit = isize::MAX as u128;
        assert(width * side <= 0x1_0000_0000 * 0x1_0000_0000) by (nonlinear_arith)
            requires
                width <= 0x1_0000_0000,
                side <= 0x1_0000_0000,
        ;
        assert(side * side <= 0x1_0000_0000 * 0x1_0000_0000) by (nonlinear_arith)
            requires
                side <= 0x1_0000_0000,
        ;
        let strip = width * side;
        let square = side * side;
        assert(16 * (width * side) == 16 * width * side) by (nonlinear_arith);
        assert(4 * (side * side) == 4 * side * side) by (nonlinear_arith);
        16 * strip <= limit && 4 * square <= limit
    }

    /// The image as a square of `size` by `size` pixels.
    ///
    /// An image that already has these dimensions is handed back as it is,
    /// borrowed. Any other is resampled with a Lanczos filter of radius 3,
    /// each channel on its own and without regard to the aspect ratio.
    pub fn resize_square<'a>(&'a self, size: IconSize) -> (square: Cow<'a, SourceImage>)
        requires
            self@.is_square(size@) || resample_fits(self@.width, size@),
        ensures
            square@.is_square(size@),
            square@.well_formed(),
            self@.is_square(size@) ==> square == Cow::Borrowed(self),
            !self@.is_square(size@) ==> square is Owned,
    {
        let side = size.get();
        if self.width() == side && self.height() == side {
            Cow::Borrowed(self)
        } else {
            let resized = resample(self.pixels(), self.width(), self.height(), side);
            Cow::Owned(SourceImage::from_exact(side, side, resized))
        }
    }
}

} // verus!
