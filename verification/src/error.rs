//! The error taxonomy of the library.

use vstd::prelude::*;

verus! {

/// Everything that can go wrong while parsing a response or planning the
/// downloads of one company. Parsing errors are local to one company's
/// pipeline: the caller converts them into "this company failed" and goes on
/// with the next company.
#[derive(Debug, Clone, Copy, PartialEq, Eq, Structural)]
pub enum SseError {
    /// The response text is not of the JSONP shape `callback(<json>)`.
    MalformedEnvelope,
    /// The query succeeded but the exchange knows no such company
    /// (`result` is an empty array). Expected, not exceptional.
    EmptyResult,
    /// A required JSON field is absent or has the wrong type.
    MissingField,
    /// A disclosure descriptor carries a `(fileType, fileVersion)` pair that
    /// the classification table does not know.
    UnknownFileType,
    /// No entry of an announcement's company roster matches the audit id
    /// being queried.
    CompanyNameNotFound,
    /// A network fetch failed. Raised by the unverified transport shell.
    NetworkError,
    /// A filesystem operation failed. Raised by the unverified transport shell.
    IoFailure,
}

impl SseError {
    /// A short description, for failure logs.
    pub fn message(&self) -> (r: &'static str)
        ensures
            r@ == self.spec_message(),
    {
        match self {
            SseError::MalformedEnvelope => "malformed JSONP envelope",
            SseError::EmptyResult => "empty company info",
            SseError::MissingField => "required field absent or mistyped",
            SseError::UnknownFileType => "unknown file type",
            SseError::CompanyNameNotFound => "company name not found in roster",
            SseError::NetworkError => "network fetch failed",
            SseError::IoFailure => "filesystem operation failed",
        }
    }

    pub open spec fn spec_message(&self) -> Seq<char> {
        match self {
            SseError::MalformedEnvelope => "malformed JSONP envelope"@,
            SseError::EmptyResult => "empty company info"@,
            SseError::MissingField => "required field absent or mistyped"@,
            SseError::UnknownFileType => "unknown file type"@,
            SseError::CompanyNameNotFound => "company name not found in roster"@,
            SseError::NetworkError => "network fetch failed"@,
            SseError::IoFailure => "filesystem operation failed"@,
        }
    }
}

} // verus!
