//! How a request proves its identity to the service.

use vstd::prelude::*;
use vstd::string::StringExecFns;

verus! {

/// Authentication method for the Yandex Translate API.
///
/// Exactly one method is chosen when a client is created, and it decides
/// which scheme the `Authorization` header uses.
#[derive(Debug, Clone)]
pub enum AuthMethod {
    /// A Yandex Cloud API key, sent with the `Api-Key` scheme.
    ApiKey(String),
    /// An IAM bearer token, sent with the `Bearer` scheme.
    IAMToken(String),
}

impl AuthMethod {
    /// The value of the `Authorization` header: the scheme, one space, the
    /// credential as given.
    pub open spec fn header_value(self) -> Seq<char> {
        match self {
            AuthMethod::ApiKey(key) => "Api-Key "@ + key@,
            AuthMethod::IAMToken(token) => "Bearer "@ + token@,
        }
    }

    /// Builds the value of the `Authorization` header.
    pub fn authorization(&self) -> (value: String)
        ensures
            value@ == self.header_value(),
    {
        match self {
            AuthMethod::ApiKey(key) => {
                let mut value = String::from_str("Api-Key ");
                value.append(key.as_str());
                value
            },
            AuthMethod::IAMToken(token) => {
                let mut value = String::from_str("Bearer ");
                value.append(token.as_str());
                value
            },
        }
    }
}

} // verus!
