use vstd::prelude::*;

verus! {

#[verifier::external_type_specification]
#[verifier::external_body]
pub struct ExReqwestError(reqwest::Error);

#[verifier::external_type_specification]
#[verifier::external_body]
pub struct ExJsonError(serde_json::Error);

#[verifier::external_type_specification]
#[verifier::external_body]
pub struct ExUrlParseError(url::ParseError);

/// Everything that can go wrong in this library, kept apart by cause so that
/// callers can tell a network fault from garbage on the wire from a
/// well-formed but incomplete stream.
#[derive(Debug)]
pub enum OllamaError {
    /// The connection or the transfer failed.
    Net(reqwest::Error),
    /// A message could not be encoded or decoded as JSON.
    Decode(serde_json::Error),
    /// A URL could not be parsed or joined.
    Url(url::ParseError),
    /// The base URL of the service does not end in a path separator.
    BaseUrlWithoutSeparator,
    /// A request names no model.
    EmptyModel,
    /// A stream ended without ever carrying final statistics.
    MissingStats,
    /// Aggregation was asked for over no successful outcome at all.
    NoSuccessfulOutcome,
}

impl From<reqwest::Error> for OllamaError {
    fn from(e: reqwest::Error) -> (r: OllamaError)
        ensures
            r == OllamaError::Net(e),
    {
        OllamaError::Net(e)
    }
}

impl vstd::std_specs::convert::FromSpecImpl<reqwest::Error> for OllamaError {
    open spec fn obeys_from_spec() -> bool {
        true
    }

    open spec fn from_spec(v: reqwest::Error) -> OllamaError {
        OllamaError::Net(v)
    }
}

impl From<serde_json::Error> for OllamaError {
    fn from(e: serde_json::Error) -> (r: OllamaError)
        ensures
            r == OllamaError::Decode(e),
    {
        OllamaError::Decode(e)
    }
}

impl vstd::std_specs::convert::FromSpecImpl<serde_json::Error> for OllamaError {
    open spec fn obeys_from_spec() -> bool {
        true
    }

    open spec fn from_spec(v: serde_json::Error) -> OllamaError {
        OllamaError::Decode(v)
    }
}

} // verus!
