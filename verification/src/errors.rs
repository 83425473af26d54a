//! The error taxonomy of the clipboard backend.
//!
//! Every failure a backend operation can report is one of these kinds; no
//! failing path returns a default or empty value instead of an error.

use vstd::prelude::*;

verus! {

/// Classifies every failure the clipboard backend can report.
#[derive(Debug, Clone, PartialEq, Eq)]
pub enum Error {
    /// No clipboard service exists in this session.
    Unavailable,
    /// The requested content type is absent (for text reads).
    NotAvailable,
    /// No image-bearing format is advertised (for image reads).
    NotAnImage,
    /// A file-reference payload is not a well-formed `file://` URL.
    InvalidReference,
    /// Bytes are present but cannot be decoded as the requested content.
    DecodeFailure,
    /// The canonical buffer cannot be converted to the native form.
    EncodeFailure,
    /// The native install call rejected the write.
    WriteFailure,
    /// The native call signaled failure with no further detail.
    Unknown { description: String },
}

impl Error {
    /// A short fixed name of the error kind, for logging by callers.
    pub fn kind_name(&self) -> (r: &'static str)
        ensures
            self is Unavailable ==> r@ == "unavailable"@,
            self is NotAvailable ==> r@ == "not available"@,
            self is NotAnImage ==> r@ == "not an image"@,
            self is InvalidReference ==> r@ == "invalid reference"@,
            self is DecodeFailure ==> r@ == "decode failure"@,
            self is EncodeFailure ==> r@ == "encode failure"@,
            self is WriteFailure ==> r@ == "write failure"@,
            self is Unknown ==> r@ == "unknown"@,
    {
        match self {
            Error::Unavailable => "unavailable",
            Error::NotAvailable => "not available",
            Error::NotAnImage => "not an image",
            Error::InvalidReference => "invalid reference",
            Error::DecodeFailure => "decode failure",
            Error::EncodeFailure => "encode failure",
            Error::WriteFailure => "write failure",
            Error::Unknown { .. } => "unknown",
        }
    }
}

} // verus!
