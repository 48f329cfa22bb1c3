//! The lines that a run prints: a notice for what it does, and one line for
//! each failure, naming the path and the reason.

use vstd::prelude::*;
use vstd::string::*;
use crate::decode::DecodeError;
use crate::job::EncodeOutcome;
use crate::names::{decimal, decimal_text};
use crate::size::IconSize;

verus! {

/// `head`, `path` and `tail` in a row.
pub open spec fn around(head: Seq<char>, path: Seq<char>, tail: Seq<char>) -> Seq<char> {
    head + path + tail
}

/// The line for an image that could not be decoded.
pub open spec fn decode_report(error: DecodeError, path: Seq<char>) -> Seq<char> {
    match error {
        DecodeError::NotFound => around(
            "Error: The image file '"@,
            path,
            "' does not exist."@,
        ),
        DecodeError::UnsupportedFormat => around(
            "Error: The image format of '"@,
            path,
            "' is not supported."@,
        ),
        DecodeError::DecodeFailure(reason) => around(
            "Error: Failed to decode image file '"@,
            path,
            "': "@,
        ) + reason@,
    }
}

/// The line for a job that did not write its file; a job that did has none.
pub open spec fn outcome_report(outcome: EncodeOutcome, path: Seq<char>) -> Option<Seq<char>> {
    match outcome {
        EncodeOutcome::Saved => None,
        EncodeOutcome::SkippedExisting => Some(
            around("Warning: File '"@, path, "' already exists. Use --force to overwrite."@),
        ),
        EncodeOutcome::Failed(reason) => Some(
            around("Error: Failed to save '"@, path, "': "@) + reason@,
        ),
    }
}

/// The line for a batch directory that could not be created.
pub open spec fn directory_report(dir: Seq<char>, reason: Seq<char>) -> Seq<char> {
    around("Error: Failed to create output directory '"@, dir, "': "@) + reason
}

/// The line that opens a run.
pub open spec fn processing_notice(path: Seq<char>) -> Seq<char> {
    "Processing: "@ + path
}

/// The line that announces the writing of an icon file.
pub open spec fn saving_notice(path: Seq<char>, side: nat) -> Seq<char> {
    around("Saving icon to: '"@, path, "' with size "@) + decimal(side) + "x"@ + decimal(side)
}

/// `head`, `path` and `tail` in a row.
fn surround(head: &str, path: &str, tail: &str) -> (text: String)
    ensures
        text@ == around(head@, path@, tail@),
{
    String::from_str(head).concat(path).concat(tail)
}

impl DecodeError {
    /// The line that reports this error for the image at `path`.
    pub fn report(&self, path: &str) -> (line: String)
        ensures
            line@ == decode_report(*self, path@),
    {
        match self {
            DecodeError::NotFound => surround("Error: The image file '", path, "' does not exist."),
            DecodeError::UnsupportedFormat => surround(
                "Error: The image format of '",
                path,
                "' is not supported.",
            ),
            DecodeError::DecodeFailure(reason) => surround(
                "Error: Failed to decode image file '",
                path,
                "': ",
            ).concat(reason.as_str()),
        }
    }
}

impl EncodeOutcome {
    /// The line that reports this outcome for the job that writes `path`: a
    /// warning for a skipped job, an error for a failed one, none for one
    /// that wrote its file.
    pub fn report(&self, path: &str) -> (line: Option<String>)
        ensures
            line is None <==> self is Saved,
            match line {
                Some(text) => outcome_report(*self, path@) == Some(text@),
                None => outcome_report(*self, path@) is None,
            },
    {
        match self {
            EncodeOutcome::Saved => None,
            EncodeOutcome::SkippedExisting => Some(
                surround("Warning: File '", path, "' already exists. Use --force to overwrite."),
            ),
            EncodeOutcome::Failed(reason) => Some(
                surround("Error: Failed to save '", path, "': ").concat(reason.as_str()),
            ),
        }
    }
}

/// The line that reports that the directory of a batch could not be made.
pub fn report_directory(dir: &str, reason: &str) -> (line: String)
    ensures
        line@ == directory_report(dir@, reason@),
{
    surround("Error: Failed to create output directory '", dir, "': ").concat(reason)
}

/// The line that opens the run on the image at `path`.
pub fn notice_processing(path: &str) -> (line: String)
    ensures
        line@ == processing_notice(path@),
{
    String::from_str("Processing: ").concat(path)
}

/// The line that announces the writing of the icon file at `path`.
pub fn notice_saving(path: &str, size: IconSize) -> (line: String)
    ensures
        line@ == saving_notice(path@, size@),
{
    let side = decimal_text(size.get());
    surround("Saving icon to: '", path, "' with size ").concat(side.as_str()).concat("x").concat(
        side.as_str(),
    )
}

} // verus!
