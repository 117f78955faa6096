//! Requests and responses, and their mathematical views.

use crate::headers::{header_fields, Fields};
use axum::http::header::HeaderMap;
use vstd::prelude::*;

verus! {

/// The method of a request. The routes tell `Get` and `Post` from the rest;
/// a method outside the standard set is `Other`.
#[derive(Clone, Copy, PartialEq, Eq, Structural, Debug)]
pub enum Method {
    Get,
    Head,
    Post,
    Put,
    Delete,
    Connect,
    Options,
    Trace,
    Patch,
    Other,
}

/// A parsed request: the method, the path without its query, the header
/// fields and the raw body.
pub struct Request {
    pub method: Method,
    pub path: String,
    pub headers: HeaderMap,
    pub body: Vec<u8>,
}

/// What a request is, to the contracts.
pub struct RequestView {
    pub method: Method,
    pub path: Seq<char>,
    pub headers: Fields,
    pub body: Seq<u8>,
}

impl View for Request {
    type V = RequestView;

    open spec fn view(&self) -> RequestView {
        RequestView {
            method: self.method,
            path: self.path@,
            headers: header_fields(self.headers),
            body: self.body@,
        }
    }
}

/// A response: the status code, the header fields and the raw body.
pub struct Response {
    pub status: u16,
    pub headers: HeaderMap,
    pub body: Vec<u8>,
}

/// What a response is, to the contracts.
pub struct ResponseView {
    pub status: u16,
    pub headers: Fields,
    pub body: Seq<u8>,
}

impl View for Response {
    type V = ResponseView;

    open spec fn view(&self) -> ResponseView {
        ResponseView {
            status: self.status,
            headers: header_fields(self.headers),
            body: self.body@,
        }
    }
}

} // verus!
