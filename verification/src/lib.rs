//! A generic JSON API front end: a request is normalised into an envelope,
//! its payload is validated into a typed value for the model it names, an
//! action is dispatched on it, and the outcome is rendered as a uniform
//! response with the matching HTTP status.

pub mod decode;
pub mod envelope;
pub mod json;
pub mod method;
pub mod outside;
pub mod query;
pub mod response;
pub mod router;
pub mod status;
pub mod text;
pub mod users;

pub use crate::envelope::ApiRequest;
pub use crate::envelope::RawRequest;
pub use crate::json::Json;
pub use crate::method::Method;
pub use crate::response::respond;
pub use crate::response::Response;
pub use crate::router::api;
pub use crate::router::route;
pub use crate::users::Users;
