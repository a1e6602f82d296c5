//! Decisions around optical character recognition.  Running an external
//! recognizer is process work and stays with the caller; the decisions on
//! extracted text are pure.

use vstd::prelude::*;
use crate::strutil::{str_to_chars, trim_chars, trimmed};

verus! {

/// Why a recognition request can fail.
#[derive(Debug, Clone, Copy, PartialEq, Eq, Structural)]
pub enum OcrError {
    /// Recognition through an external service is not implemented.
    ApiNotImplemented,
}

/// Whether extracted document text indicates a scanned document: no
/// extractable text beyond whitespace.
pub fn is_scanned_pdf(extracted_text: &str) -> (r: bool)
    ensures
        r == (trimmed(extracted_text@).len() == 0),
{
    let v = str_to_chars(extracted_text);
    trim_chars(&v).len() == 0
}

/// Recognition through an external service: a documented capability that
/// is not implemented; every call fails.
pub fn ocr_pdf_with_api(path: &str, api_key: &str) -> (r: Result<String, OcrError>)
    ensures
        r == Result::<String, OcrError>::Err(OcrError::ApiNotImplemented),
{
    let _ = path;
    let _ = api_key;
    Err(OcrError::ApiNotImplemented)
}

} // verus!
