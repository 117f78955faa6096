//! The handlers: one function from request data to a response for each route,
//! and the answer to a request that matches no route.

use crate::headers::{
    ascii_bytes, content_type_name, content_type_text, copy_value, empty_headers, first_value,
    header_fields, is_visible_ascii, set_field, static_value, Fields,
};
use crate::message::{Response, ResponseView};
use axum::http::header::HeaderMap;
use vstd::prelude::*;

verus! {

/// Status code of a successful response.
pub const STATUS_OK: u16 = 200;

/// Status code of the response to a request that matches no route.
pub const STATUS_NOT_FOUND: u16 = 404;

/// The content type of the root response.
pub open spec fn text_content_type() -> Seq<u8> {
    ascii_bytes("text/plain; charset=utf-8"@)
}

/// The content type of an echo whose request named none.
pub open spec fn fallback_content_type() -> Seq<u8> {
    ascii_bytes("application/octet-stream"@)
}

/// The header fields of a response that carries a content type and nothing else.
pub open spec fn only_content_type(value: Seq<u8>) -> Fields {
    Fields::empty().insert(content_type_text(), seq![value])
}

/// The root response: success, the text `ok` and a line feed, as plain text.
pub open spec fn root_response() -> ResponseView {
    ResponseView {
        status: STATUS_OK,
        headers: only_content_type(text_content_type()),
        body: ascii_bytes("ok\n"@),
    }
}

/// The health response: success, no header field, no body.
pub open spec fn healthz_response() -> ResponseView {
    ResponseView { status: STATUS_OK, headers: Fields::empty(), body: Seq::empty() }
}

/// The response to a request that matches no route: 404, no header field, no body.
pub open spec fn not_found_response() -> ResponseView {
    ResponseView { status: STATUS_NOT_FOUND, headers: Fields::empty(), body: Seq::empty() }
}

/// The content type that an echo answers with: the first `content-type` value
/// of the request, or the fallback where the request has none.
pub open spec fn echo_content_type(request_headers: Fields) -> Seq<u8> {
    if request_headers.contains_key(content_type_text()) {
        request_headers[content_type_text()][0]
    } else {
        fallback_content_type()
    }
}

/// The echo response: success, the request's body, and its content type as the
/// only header field.
pub open spec fn echo_response(request_headers: Fields, body: Seq<u8>) -> ResponseView {
    ResponseView {
        status: STATUS_OK,
        headers: only_content_type(echo_content_type(request_headers)),
        body,
    }
}

/// Handler of `GET /`.
pub fn root() -> (resp: Response)
    ensures
        resp@ == root_response(),
{
    proof {
        reveal_strlit("text/plain; charset=utf-8");
        reveal_strlit("ok\n");
    }
    let value = static_value("text/plain; charset=utf-8");
    let mut headers = empty_headers();
    set_field(&mut headers, content_type_name(), value);
    let mut body: Vec<u8> = Vec::new();
    body.push(0x6f);
    body.push(0x6b);
    body.push(0x0a);
    assert(body@ =~= ascii_bytes("ok\n"@));
    Response { status: STATUS_OK, headers, body }
}

/// Handler of `GET /healthz`.
pub fn healthz() -> (resp: Response)
    ensures
        resp@ == healthz_response(),
{
    Response { status: STATUS_OK, headers: empty_headers(), body: Vec::new() }
}

/// The answer to a request that matches no route.
pub fn not_found() -> (resp: Response)
    ensures
        resp@ == not_found_response(),
{
    Response { status: STATUS_NOT_FOUND, headers: empty_headers(), body: Vec::new() }
}

/// Handler of `POST /echo`: hands back the body as it came, under the
/// request's content type or, without one, `application/octet-stream`.
pub fn echo(headers: &HeaderMap, body: Vec<u8>) -> (resp: Response)
    ensures
        resp@ == echo_response(header_fields(*headers), body@),
{
    let name = content_type_name();
    let content_type = match first_value(headers, &name) {
        Some(value) => copy_value(value),
        None => {
            proof {
                reveal_strlit("application/octet-stream");
            }
            static_value("application/octet-stream")
        },
    };
    let mut resp_headers = empty_headers();
    set_field(&mut resp_headers, name, content_type);
    Response { status: STATUS_OK, headers: resp_headers, body }
}

} // verus!
