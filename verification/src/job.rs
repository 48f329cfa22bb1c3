//! One unit of work: a destination, a size and an overwrite policy, and what
//! becomes of it.

use vstd::prelude::*;
use vstd::string::*;
use std::borrow::Cow;
use crate::container::{declared_dimensions, encode_icon, icon_of, is_icon_of};
use crate::raster::{Raster, SourceImage};
use crate::resize::resample_fits;
use crate::size::IconSize;

verus! {

/// The request to write one icon file.
#[derive(Clone, Debug, PartialEq, Eq)]
pub struct EncodeJob {
    /// Where the container goes.
    pub path: String,
    /// The side of the icon.
    pub size: IconSize,
    /// Whether a file that is already there may be replaced.
    pub force: bool,
}

/// What a job is: where it writes, the side of its icon and its overwrite
/// policy.
pub struct JobView {
    pub path: Seq<char>,
    pub side: nat,
    pub force: bool,
}

impl View for EncodeJob {
    type V = JobView;

    open spec fn view(&self) -> JobView {
        JobView { path: self.path@, side: self.size@, force: self.force }
    }
}

/// What became of a job.
#[derive(Clone, Debug, PartialEq, Eq)]
pub enum EncodeOutcome {
    /// The container was written.
    Saved,
    /// The destination was there and was left as it was.
    SkippedExisting,
    /// The container could not be made or written; the text says why.
    Failed(String),
}

/// What is left to do for a job once its container has been computed.
#[derive(Clone, Debug, PartialEq, Eq)]
pub enum SaveStep {
    /// Nothing: the destination stays untouched.
    Finished(EncodeOutcome),
    /// Create or replace the destination with exactly these bytes.
    Write(Vec<u8>),
}

/// Whether a job leaves its destination alone: the file is there and
/// replacing it was not asked for.
pub open spec fn skips(exists: bool, force: bool) -> bool {
    exists && !force
}

/// What a written container holds: a square icon of `side` made from the
/// image itself where the image has that size, and from some raster of that
/// size otherwise.
pub open spec fn holds_icon(bytes: Seq<u8>, image: Raster, side: nat) -> bool {
    &&& declared_dimensions(bytes) == Some((side, side))
    &&& exists|pixels: Seq<u8>|
        pixels.len() == 4 * side * side && #[trigger] is_icon_of(bytes, pixels, side, side)
    &&& image.is_square(side) ==> is_icon_of(bytes, image.pixels, side, side)
}

/// Whether `step` is what the encoder's result for the square raster with
/// the given pixels calls for: to write exactly the container that the
/// encoder made, or a failure where it made none.
pub open spec fn encoded_step(step: SaveStep, pixels: Seq<u8>, side: nat) -> bool {
    match icon_of(pixels, side, side) {
        Some(bytes) => step matches SaveStep::Write(written) && written@ == bytes,
        None => step matches SaveStep::Finished(outcome) && outcome is Failed,
    }
}

/// The reason given for an image that cannot be resampled on this machine.
pub open spec fn too_large() -> Seq<char> {
    "the image is too large to be resized"@
}

/// The reason given for a job whose thread died.
pub open spec fn stopped_early() -> Seq<char> {
    "the job stopped before it finished"@
}

/// Decides what to do about one icon file and computes its bytes.
///
/// `exists` says whether the destination is there. With `exists` and without
/// `force` the job is skipped and nothing is computed. Otherwise the image is
/// brought to `size` by `size` pixels and handed to the encoder, and the step
/// follows the encoder: a write of its container where it made one, a
/// failure where it made none. An image that has the size already is encoded
/// as it is. One that cannot be resampled on this machine fails before the
/// encoder is reached, and no size above 256 ever leads to a write.
pub fn save_icon(image: &SourceImage, exists: bool, size: IconSize, force: bool) -> (step: SaveStep)
    ensures
        skips(exists, force) <==> step == SaveStep::Finished(EncodeOutcome::SkippedExisting),
        step matches SaveStep::Finished(outcome) ==> !(outcome is Saved),
        step matches SaveStep::Write(bytes) ==> holds_icon(bytes@, image@, size@),
        step is Write ==> size@ <= 256,
        !skips(exists, force) && image@.is_square(size@) ==> encoded_step(
            step,
            image@.pixels,
            size@,
        ),
        !skips(exists, force) && !image@.is_square(size@) && resample_fits(image@.width, size@)
            ==> exists|pixels: Seq<u8>|
            pixels.len() == 4 * size@ * size@ && #[trigger] encoded_step(step, pixels, size@),
        !skips(exists, force) && !image@.is_square(size@) && !resample_fits(image@.width, size@)
            ==> (step matches SaveStep::Finished(EncodeOutcome::Failed(reason)) && reason@
            == too_large()),
{
    if exists && !force {
        return SaveStep::Finished(EncodeOutcome::SkippedExisting);
    }
    if !image.can_resize(size) {
        return SaveStep::Finished(
            EncodeOutcome::Failed(String::from_str("the image is too large to be resized")),
        );
    }
    let square = image.resize_square(size);
    let raster: &SourceImage = match &square {
        Cow::Borrowed(same) => same,
        Cow::Owned(resized) => resized,
    };
    let encoded = encode_icon(raster);
    assert(encoded matches Ok(bytes) ==> is_icon_of(bytes@, raster@.pixels, size@, size@));
    let step = SaveStep::from_encoding(encoded);
    assert(raster@.pixels.len() == 4 * size@ * size@);
    assert(encoded_step(step, raster@.pixels, size@));
    step
}

impl SaveStep {
    /// The step that follows the serialising of a container: to write it, or
    /// none where it could not be made.
    pub fn from_encoding(encoded: Result<Vec<u8>, String>) -> (step: SaveStep)
        ensures
            encoded matches Ok(bytes) ==> step == SaveStep::Write(bytes),
            encoded matches Err(reason) ==> step == SaveStep::Finished(
                EncodeOutcome::Failed(reason),
            ),
    {
        match encoded {
            Ok(bytes) => SaveStep::Write(bytes),
            Err(reason) => SaveStep::Finished(EncodeOutcome::Failed(reason)),
        }
    }
}

impl EncodeOutcome {
    /// The outcome of a job whose container was handed to the file system:
    /// saved, or failed with the reason that the write gave.
    pub fn from_write(written: Result<(), String>) -> (outcome: EncodeOutcome)
        ensures
            written is Ok ==> outcome == EncodeOutcome::Saved,
            written matches Err(reason) ==> outcome == EncodeOutcome::Failed(reason),
    {
        match written {
            Ok(()) => EncodeOutcome::Saved,
            Err(reason) => EncodeOutcome::Failed(reason),
        }
    }

    /// The outcome of a job that ran on a thread of its own: what the thread
    /// handed back, or a failure where it died before it could.
    pub fn from_join(joined: Option<EncodeOutcome>) -> (outcome: EncodeOutcome)
        ensures
            joined matches Some(o) ==> outcome == o,
            joined is None ==> (outcome matches EncodeOutcome::Failed(reason) && reason@
                == stopped_early()),
    {
        match joined {
            Some(outcome) => outcome,
            None => EncodeOutcome::Failed(String::from_str("the job stopped before it finished")),
        }
    }

    /// Whether the job wrote its file.
    pub fn is_saved(&self) -> (saved: bool)
        ensures
            saved <==> self is Saved,
    {
        match self {
            EncodeOutcome::Saved => true,
            _ => false,
        }
    }
}

} // verus!
