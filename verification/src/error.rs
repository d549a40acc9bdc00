//! The ways in which a translation can fail.

use vstd::prelude::*;

verus! {

/// Why a translation did not come back. None of these is tried again here:
/// a caller that wants another attempt starts over from the first request.
#[derive(Debug, Clone, Copy, PartialEq, Eq, Structural)]
pub enum TranslateError {
    /// The first page could not be fetched.
    SessionFetchFailed,
    /// A later request did not get through.
    TransportFailure,
    /// The first page does not hold a session token where one is expected.
    TokenNotFound,
    /// The mobile page does not hold the markers around the translation.
    MarkerNotFound,
    /// The reply does not repeat the text that was sent, so it is taken for
    /// an error page and not read any further.
    UpstreamError,
    /// The reply is not built as expected.
    ProtocolSchemaMismatch,
}

impl TranslateError {
    /// A line of text for each failure.
    pub fn message(&self) -> (r: &'static str)
        ensures
            r@ == (match *self {
                TranslateError::SessionFetchFailed => "Unable to fetch the session page"@,
                TranslateError::TransportFailure => "Unable to reach Google Translate"@,
                TranslateError::TokenNotFound => "Unable to find the session token"@,
                TranslateError::MarkerNotFound => "Unable to parse value"@,
                TranslateError::UpstreamError => "Google Translate return error"@,
                TranslateError::ProtocolSchemaMismatch => "Unexpected reply from Google Translate"@,
            }),
    {
        match self {
            TranslateError::SessionFetchFailed => "Unable to fetch the session page",
            TranslateError::TransportFailure => "Unable to reach Google Translate",
            TranslateError::TokenNotFound => "Unable to find the session token",
            TranslateError::MarkerNotFound => "Unable to parse value",
            TranslateError::UpstreamError => "Google Translate return error",
            TranslateError::ProtocolSchemaMismatch => "Unexpected reply from Google Translate",
        }
    }
}

} // verus!
