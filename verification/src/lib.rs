//! Request plumbing for an asynchronous web framework.
//!
//! The central type is [`request::Request`]: a per-request value that a
//! dispatcher builds from the application state, the metadata and payload of
//! the incoming HTTP request, and the route-parameter tables collected while
//! matching the path. Handlers use it to read headers, route parameters,
//! query strings, cookies, typed per-request locals, and the request body.

pub mod body;
pub mod codec;
pub mod cookies;
pub mod error;
pub mod http_types;
pub mod locals;
pub mod request;
pub mod routing;
