//! Data carried from a text recogniser.

use vstd::prelude::*;
use vstd::string::StringExecFns;

verus! {

/// Failure of a text recogniser.
#[derive(Debug, Clone, PartialEq, Eq)]
pub enum OcrError {
    Provider(String),
}

impl OcrError {
    /// The text of the message for this error.
    pub open spec fn message_text(self) -> Seq<char> {
        match self {
            OcrError::Provider(detail) => "OCR provider error: "@ + detail@,
        }
    }

    /// A human-readable message for this error.
    pub fn message(&self) -> (s: String)
        ensures
            s@ == self.message_text(),
    {
        match self {
            OcrError::Provider(detail) => String::from_str("OCR provider error: ").concat(
                detail.as_str(),
            ),
        }
    }
}

/// A block of recognised text and the box it was found in.
#[derive(Debug)]
pub struct OcrBlock {
    pub bbox: (u32, u32, u32, u32),
    pub text: String,
}

impl Clone for OcrBlock {
    fn clone(&self) -> (copy: Self)
        ensures
            copy.bbox == self.bbox,
            copy.text@ == self.text@,
    {
        OcrBlock {
            bbox: (self.bbox.0, self.bbox.1, self.bbox.2, self.bbox.3),
            text: self.text.clone(),
        }
    }
}

} // verus!
