//! The error taxonomy of the container format.
//!
//! Each failure category is a distinct variant, so a caller can tell a file
//! that is not a container apart from a container that merely lacks the
//! document member, and an unparseable payload apart from one with the wrong
//! format tag. Variants that arise from a failing call carry that call's own
//! error text; [`FlmError::message`] prepends the fixed description of the
//! stage that failed.

use vstd::prelude::*;
use vstd::string::StringExecFns;

verus! {

/// A failure of encoding or decoding a document container.
#[derive(Debug)]
pub enum FlmError {
    /// Opening the payload member inside a new container failed.
    MemberStart(String),
    /// Writing the payload bytes into the container failed.
    MemberWrite(String),
    /// Finalizing the container's central directory failed.
    Finalize(String),
    /// The bytes do not form a valid compressed container.
    NotContainer(String),
    /// The container is valid but holds no `document.json` member.
    MemberMissing(String),
    /// The member's data could not be read back as text: its compressed
    /// stream is corrupt, or its bytes are not valid UTF-8.
    MemberUnreadable(String),
    /// The member's text does not parse as JSON.
    NotJson(String),
    /// The JSON lacks a `format` field equal to `"flowmark"`.
    WrongTag,
}

/// The human-readable message of each error: a fixed stage description,
/// followed by the failing call's own text where there is one.
pub open spec fn spec_message(e: FlmError) -> Seq<char> {
    match e {
        FlmError::MemberStart(cause) => "Failed to add file to ZIP: "@ + cause@,
        FlmError::MemberWrite(cause) => "Failed to write to ZIP: "@ + cause@,
        FlmError::Finalize(cause) => "Failed to finalize ZIP: "@ + cause@,
        FlmError::NotContainer(cause) => "Failed to read ZIP: "@ + cause@,
        FlmError::MemberMissing(cause) => "document.json not found in .flm file: "@ + cause@,
        FlmError::MemberUnreadable(cause) => "Failed to read document.json: "@ + cause@,
        FlmError::NotJson(cause) => "Invalid JSON in document.json: "@ + cause@,
        FlmError::WrongTag => "Invalid format: expected 'flowmark'"@,
    }
}

impl FlmError {
    /// The message shown to a caller for this error.
    pub fn message(&self) -> (r: String)
        ensures
            r@ == spec_message(*self),
    {
        match self {
            FlmError::MemberStart(cause) => String::from_str("Failed to add file to ZIP: ").concat(
                cause.as_str(),
            ),
            FlmError::MemberWrite(cause) => String::from_str("Failed to write to ZIP: ").concat(
                cause.as_str(),
            ),
            FlmError::Finalize(cause) => String::from_str("Failed to finalize ZIP: ").concat(
                cause.as_str(),
            ),
            FlmError::NotContainer(cause) => String::from_str("Failed to read ZIP: ").concat(
                cause.as_str(),
            ),
            FlmError::MemberMissing(cause) => String::from_str(
                "document.json not found in .flm file: ",
            ).concat(cause.as_str()),
            FlmError::MemberUnreadable(cause) => String::from_str(
                "Failed to read document.json: ",
            ).concat(cause.as_str()),
            FlmError::NotJson(cause) => String::from_str("Invalid JSON in document.json: ").concat(
                cause.as_str(),
            ),
            FlmError::WrongTag => String::from_str("Invalid format: expected 'flowmark'"),
        }
    }
}

} // verus!
