//! Data carried to and from a speech recogniser.

use vstd::prelude::*;
use vstd::string::StringExecFns;

verus! {

/// Failure of a speech recogniser.
#[derive(Debug, Clone, PartialEq, Eq)]
pub enum AsrError {
    Provider(String),
}

impl AsrError {
    /// The text of the message for this error.
    pub open spec fn message_text(self) -> Seq<char> {
        match self {
            AsrError::Provider(detail) => "Provider error: "@ + detail@,
        }
    }

    /// A human-readable message for this error.
    pub fn message(&self) -> (s: String)
        ensures
            s@ == self.message_text(),
    {
        match self {
            AsrError::Provider(detail) => String::from_str("Provider error: ").concat(
                detail.as_str(),
            ),
        }
    }
}

/// A piece of transcript, partial or final.
#[derive(Debug, Clone)]
pub struct TranscriptDelta {
    pub lang: String,
    pub text: String,
    pub is_final: bool,
}

} // verus!
