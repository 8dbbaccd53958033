//! A small fluent builder for HTTP requests.
//!
//! A [`Request`] accumulates a method, a URL with its query string, headers
//! and one of three bodies (none, a byte buffer such as JSON, or form
//! fields). [`Request::prepare`] resolves it into what a transport sends.

pub mod external;

pub mod form;
pub mod laws;
pub mod request;

pub use form::encode_form;
pub use request::{
    connect, delete, get, head, options, patch, post, put, trace, Body, BodyView, Method,
    Prepared, Request, RequestView,
};
