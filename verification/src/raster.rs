//! Decoded rasters: eight-bit RGBA pixels in row-major order.

use vstd::prelude::*;

verus! {

/// What a raster is: its dimensions and its bytes, four per pixel, rows from
/// the top, each row from the left.
pub struct Raster {
    pub width: nat,
    pub height: nat,
    pub pixels: Seq<u8>,
}

impl Raster {
    /// The bytes fill the rectangle exactly.
    pub open spec fn well_formed(self) -> bool {
        self.pixels.len() == 4 * self.width * self.height
    }

    /// Both sides are `side` pixels long.
    pub open spec fn is_square(self, side: nat) -> bool {
        self.width == side && self.height == side
    }
}

/// An immutable decoded image.
#[derive(Debug, PartialEq, Eq)]
pub struct SourceImage {
    width: u32,
    height: u32,
    pixels: Vec<u8>,
}

impl View for SourceImage {
    type V = Raster;

    closed spec fn view(&self) -> Raster {
        Raster { width: self.width as nat, height: self.height as nat, pixels: self.pixels@ }
    }
}

/// The number of bytes that a raster of the given dimensions holds.
pub fn byte_count(width: u32, height: u32) -> (count: u128)
    ensures
        count == 4 * width * height,
{
    let row: u128 = 4u128 * (width as u128);
    assert(row * height <= 0x4_0000_0000 * 0x1_0000_0000) by (nonlinear_arith)
        requires
            row <= 0x4_0000_0000,
            height <= 0x1_0000_0000,
    ;
    assert(row * height == 4 * width * height) by (nonlinear_arith)
        requires
            row == 4 * width,
    ;
    row * (height as u128)
}

impl Clone for SourceImage {
    fn clone(&self) -> (copy: SourceImage)
        ensures
            copy@ == self@,
    {
        proof {
            use_type_invariant(self);
        }
        let pixels = self.pixels.clone();
        assert(pixels@ =~= self.pixels@);
        SourceImage { width: self.width, height: self.height, pixels }
    }
}

impl SourceImage {
    #[verifier::type_invariant]
    spec fn filled(self) -> bool {
        self.pixels@.len() == 4 * self.width * self.height
    }

    /// Builds an image from its dimensions and at least as many bytes as they
    /// call for; bytes beyond the rectangle are dropped.
    pub fn from_raw(width: u32, height: u32, pixels: Vec<u8>) -> (image: Option<SourceImage>)
        ensures
            image is Some <==> pixels@.len() >= 4 * width * height,
            image matches Some(i) ==> i@ == (Raster {
                width: width as nat,
                height: height as nat,
                pixels: pixels@.take(4 * width * height),
            }),
    {
        let mut pixels = pixels;
        let needed = byte_count(width, height);
        if (pixels.len() as u128) < needed {
            return None;
        }
        pixels.truncate(needed as usize);
        Some(SourceImage { width, height, pixels })
    }

    /// Builds an image from its dimensions and exactly the bytes that they
    /// call for.
    pub(crate) fn from_exact(width: u32, height: u32, pixels: Vec<u8>) -> (image: SourceImage)
        requires
            pixels@.len() == 4 * width * height,
        ensures
            image@ == (Raster { width: width as nat, height: height as nat, pixels: pixels@ }),
    {
        SourceImage { width, height, pixels }
    }

    /// The width in pixels.
    pub fn width(&self) -> (width: u32)
        ensures
            width == self@.width,
            self@.well_formed(),
    {
        proof {
            use_type_invariant(self);
        }
        self.width
    }

    /// The height in pixels.
    pub fn height(&self) -> (height: u32)
        ensures
            height == self@.height,
            self@.well_formed(),
    {
        proof {
            use_type_invariant(self);
        }
        self.height
    }

    /// The pixel bytes: exactly four for each pixel of the rectangle.
    pub fn pixels(&self) -> (pixels: &[u8])
        ensures
            pixels@ == self@.pixels,
            self@.well_formed(),
    {
        proof {
            use_type_invariant(self);
        }
        self.pixels.as_slice()
    }
}

} // verus!
