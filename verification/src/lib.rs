//! The request handlers of a small HTTP service, with their contracts.
//!
//! The service answers three routes: `GET /` with a fixed text, `GET /healthz`
//! with an empty success, and `POST /echo` with the request body and its
//! content type handed back. Everything else is answered with 404. The crate
//! holds what is decided between a parsed request and the response to it; the
//! listener that reads and writes connections stands outside.

pub mod config;
pub mod handlers;
pub mod headers;
pub mod laws;
pub mod message;
pub mod router;
