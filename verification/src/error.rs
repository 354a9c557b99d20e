//! The errors of the profile store.

use vstd::prelude::*;
use vstd::std_specs::convert::FromSpecImpl;

verus! {

#[verifier::external_type_specification]
#[verifier::external_body]
pub struct ExIoError(std::io::Error);

/// Why a JSON text was not taken or not produced.
#[derive(Debug)]
pub enum JsonError {
    /// `serde_json` refused: the text is not one JSON document, or a document
    /// could not be written as text. Its own error is kept.
    Text(serde_json::Error),
    /// The text is a JSON document, but not one of the shape asked for: a
    /// member is missing, has the wrong type, a number does not fit, or the
    /// table holds a member other than `values`.
    Schema,
}

/// Why a profile was not loaded or not saved.
#[derive(Debug)]
pub enum SeamProfileError {
    /// The file could not be read or written.
    Io(std::io::Error),
    /// The content is not a profile.
    Json(JsonError),
}

impl From<std::io::Error> for SeamProfileError {
    fn from(value: std::io::Error) -> (r: Self) {
        SeamProfileError::Io(value)
    }
}

impl FromSpecImpl<std::io::Error> for SeamProfileError {
    open spec fn obeys_from_spec() -> bool {
        true
    }

    open spec fn from_spec(value: std::io::Error) -> Self {
        SeamProfileError::Io(value)
    }
}

impl From<JsonError> for SeamProfileError {
    fn from(value: JsonError) -> (r: Self) {
        SeamProfileError::Json(value)
    }
}

impl FromSpecImpl<JsonError> for SeamProfileError {
    open spec fn obeys_from_spec() -> bool {
        true
    }

    open spec fn from_spec(value: JsonError) -> Self {
        SeamProfileError::Json(value)
    }
}

impl From<serde_json::Error> for SeamProfileError {
    fn from(value: serde_json::Error) -> (r: Self) {
        SeamProfileError::Json(JsonError::Text(value))
    }
}

impl FromSpecImpl<serde_json::Error> for SeamProfileError {
    open spec fn obeys_from_spec() -> bool {
        true
    }

    open spec fn from_spec(value: serde_json::Error) -> Self {
        SeamProfileError::Json(JsonError::Text(value))
    }
}

} // verus!
