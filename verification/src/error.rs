//! The failures of a translation call.

use vstd::prelude::*;
use vstd::string::StringExecFns;

verus! {

#[verifier::external_type_specification]
#[verifier::external_body]
pub struct ExReqwestError(reqwest::Error);

/// Why a translation call failed. No failure is retried: each is handed to
/// the caller as the result of the call.
#[derive(Debug)]
pub enum TranslateError {
    /// The transport could not complete the exchange; holds the transport's
    /// own diagnostic.
    RequestFailed(reqwest::Error),
    /// The response body is no JSON, or not of the expected shape.
    JsonError(serde_json::Error),
    /// The service answered with a status other than 2xx; holds the status
    /// and the body of the answer.
    ApiError(String),
    /// The client's configuration is invalid.
    ConfigError(String),
}

/// What a failure is called, whatever its detail.
pub open spec fn heading(failure: TranslateError) -> Seq<char> {
    match failure {
        TranslateError::RequestFailed(_) => "HTTP request failed: "@,
        TranslateError::JsonError(_) => "JSON serialization/deserialization failed: "@,
        TranslateError::ApiError(_) => "API error: "@,
        TranslateError::ConfigError(_) => "Invalid configuration: "@,
    }
}

/// `reqwest::Error`'s `Display`. Trusted: nothing is stated of the text.
#[verifier::external_body]
fn transport_detail(error: &reqwest::Error) -> (detail: String) {
    error.to_string()
}

/// `serde_json::Error`'s `Display`. Trusted: nothing is stated of the text.
#[verifier::external_body]
fn json_detail(error: &serde_json::Error) -> (detail: String) {
    error.to_string()
}

impl TranslateError {
    /// The failure in words: its heading, then its detail. For the two kinds
    /// that hold a text the detail is that text.
    pub fn message(&self) -> (text: String)
        ensures
            text@.len() >= heading(*self).len(),
            text@.subrange(0, heading(*self).len() as int) == heading(*self),
            match *self {
                TranslateError::ApiError(detail) => text@ == heading(*self) + detail@,
                TranslateError::ConfigError(detail) => text@ == heading(*self) + detail@,
                _ => true,
            },
    {
        match self {
            TranslateError::RequestFailed(e) => {
                let mut text = String::from_str("HTTP request failed: ");
                text.append(transport_detail(e).as_str());
                assert(text@.subrange(0, heading(*self).len() as int) =~= heading(*self));
                text
            },
            TranslateError::JsonError(e) => {
                let mut text = String::from_str("JSON serialization/deserialization failed: ");
                text.append(json_detail(e).as_str());
                assert(text@.subrange(0, heading(*self).len() as int) =~= heading(*self));
                text
            },
            TranslateError::ApiError(detail) => {
                let mut text = String::from_str("API error: ");
                text.append(detail.as_str());
                assert(text@.subrange(0, heading(*self).len() as int) =~= heading(*self));
                text
            },
            TranslateError::ConfigError(detail) => {
                let mut text = String::from_str("Invalid configuration: ");
                text.append(detail.as_str());
                assert(text@.subrange(0, heading(*self).len() as int) =~= heading(*self));
                text
            },
        }
    }
}

impl From<reqwest::Error> for TranslateError {
    fn from(error: reqwest::Error) -> (r: TranslateError) {
        TranslateError::RequestFailed(error)
    }
}

impl vstd::std_specs::convert::FromSpecImpl<reqwest::Error> for TranslateError {
    open spec fn obeys_from_spec() -> bool {
        true
    }

    open spec fn from_spec(error: reqwest::Error) -> TranslateError {
        TranslateError::RequestFailed(error)
    }
}

impl From<serde_json::Error> for TranslateError {
    fn from(error: serde_json::Error) -> (r: TranslateError) {
        TranslateError::JsonError(error)
    }
}

impl vstd::std_specs::convert::FromSpecImpl<serde_json::Error> for TranslateError {
    open spec fn obeys_from_spec() -> bool {
        true
    }

    open spec fn from_spec(error: serde_json::Error) -> TranslateError {
        TranslateError::JsonError(error)
    }
}

} // verus!
