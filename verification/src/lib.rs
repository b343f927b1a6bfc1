//! Sans-IO client core for the Yandex Translate HTTP API.
//!
//! The crate prepares the outbound request of a translation call and turns
//! whatever the transport brought back into a typed result. It performs no
//! network traffic itself: the caller supplies the transport.

pub mod auth;
pub mod client;
pub mod error;
pub mod http;
pub mod json;
pub mod request;
pub mod response;

pub use auth::AuthMethod;
pub use client::{YandexTranslateClient, API_BASE_URL};
pub use error::TranslateError;
pub use http::{HttpRequest, HttpResponse};
pub use json::JsonValue;
pub use request::TranslateRequest;
pub use response::{TranslateResponse, Translation};
