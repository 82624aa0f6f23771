//! HTTP client support with negotiated transport scheme and authentication.
//!
//! The verified part of the crate decides which transport scheme and which
//! authentication method to try, applies the selected method to every request,
//! and chooses how each request must be sent. Network round trips are made by
//! the caller, which feeds probe outcomes back into the decision functions.
pub mod auth;
pub mod discovery;
pub mod event;
pub mod http;
pub mod secret;

pub use auth::{Authentication, SendMode, UpgradeError};
pub use discovery::{AuthKind, Scheme, Search, Step, AUTH_KIND_COUNT, SCHEME_COUNT};
pub use event::{KeyValue, KeyValueSet, VMDEvent};
pub use http::{Client, RequestBuilder, UpgradedRequestBuilder};
pub use secret::Secret;
