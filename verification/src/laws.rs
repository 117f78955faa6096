//! What holds of every request, stated over the views that the contracts of
//! `handle` and of the handlers use.

use crate::handlers::{echo_response, fallback_content_type, only_content_type};
use crate::headers::{content_type_text, Fields};
use crate::message::{Method, RequestView};
use crate::router::{response_to, route_of, Route};
use vstd::prelude::*;

verus! {

/// Whether a request is a `POST` to `/echo`.
pub open spec fn is_echo_request(req: RequestView) -> bool {
    req.method == Method::Post && req.path == "/echo"@
}

/// A `POST /echo` whose first `content-type` value is `content_type` is
/// answered with success, the request's body byte for byte, and that content
/// type as the only header field; no other request header is handed back.
pub proof fn law_echo_reflects(req: RequestView, content_type: Seq<u8>)
    requires
        is_echo_request(req),
        req.headers.contains_key(content_type_text()),
        req.headers[content_type_text()].len() > 0,
        req.headers[content_type_text()][0] == content_type,
    ensures
        response_to(req).status == 200,
        response_to(req).body == req.body,
        response_to(req).headers == only_content_type(content_type),
        response_to(req).headers.dom() == set![content_type_text()],
        response_to(req).headers[content_type_text()] == seq![content_type],
{
    assert(response_to(req).headers.dom() =~= set![content_type_text()]);
}

/// A `POST /echo` without a `content-type` field is answered as
/// `application/octet-stream`, with the body unchanged.
pub proof fn law_echo_fallback(req: RequestView)
    requires
        is_echo_request(req),
        !req.headers.contains_key(content_type_text()),
    ensures
        response_to(req).status == 200,
        response_to(req).body == req.body,
        response_to(req).headers == only_content_type(fallback_content_type()),
        response_to(req).headers[content_type_text()] == seq![fallback_content_type()],
{
}

/// A `POST /echo` with an empty body is answered with success and an empty
/// body, whatever its header fields.
pub proof fn law_echo_empty_body(req: RequestView)
    requires
        is_echo_request(req),
        req.body.len() == 0,
    ensures
        response_to(req).status == 200,
        response_to(req).body.len() == 0,
{
}

/// Echoing an echo changes nothing: a response of the echo, sent back as the
/// header fields and body of a second request, is answered with itself.
pub proof fn law_echo_idempotent(request_headers: Fields, body: Seq<u8>)
    ensures
        ({
            let first = echo_response(request_headers, body);
            echo_response(first.headers, first.body) == first
        }),
{
}

/// Two requests with the same method, path, `content-type` values and body
/// are answered alike, whatever else their header fields hold.
pub proof fn law_other_headers_ignored(a: RequestView, b: RequestView)
    requires
        a.method == b.method,
        a.path == b.path,
        a.body == b.body,
        a.headers.contains_key(content_type_text()) == b.headers.contains_key(
            content_type_text(),
        ),
        a.headers.contains_key(content_type_text()) ==> a.headers[content_type_text()][0]
            == b.headers[content_type_text()][0],
    ensures
        response_to(a) == response_to(b),
{
}

/// A `GET /healthz` is answered with success and nothing else, whatever
/// header fields and body it carries.
pub proof fn law_healthz_always_ok(req: RequestView)
    requires
        req.method == Method::Get,
        req.path == "/healthz"@,
    ensures
        response_to(req).status == 200,
        response_to(req).body.len() == 0,
        response_to(req).headers == Fields::empty(),
{
    reveal_strlit("/healthz");
    reveal_strlit("/");
    assert("/healthz"@.len() == 8);
    assert("/"@.len() == 1);
}

/// A `GET /` is answered with success and the three bytes `o`, `k` and line
/// feed, whatever header fields and body it carries.
pub proof fn law_root_body(req: RequestView)
    requires
        req.method == Method::Get,
        req.path == "/"@,
    ensures
        response_to(req).status == 200,
        response_to(req).body == seq![0x6fu8, 0x6bu8, 0x0au8],
{
    reveal_strlit("ok\n");
    assert(response_to(req).body =~= seq![0x6fu8, 0x6bu8, 0x0au8]);
}

/// Whether a request matches an entry of the route table.
pub open spec fn is_routed(req: RequestView) -> bool {
    ||| req.method == Method::Get && req.path == "/"@
    ||| req.method == Method::Get && req.path == "/healthz"@
    ||| is_echo_request(req)
}

/// A request that is none of `GET /`, `GET /healthz` and `POST /echo` is
/// answered with 404, no header field and no body, whatever it carries.
pub proof fn law_unmatched_is_not_found(req: RequestView)
    requires
        !is_routed(req),
    ensures
        route_of(req.method, req.path) == Route::NotFound,
        response_to(req).status == 404,
        response_to(req).body.len() == 0,
        response_to(req).headers == Fields::empty(),
{
}

/// A request is answered with success exactly when it matches an entry of the
/// route table, and with 404 otherwise.
pub proof fn law_success_iff_routed(req: RequestView)
    ensures
        response_to(req).status == 200 <==> is_routed(req),
        response_to(req).status == 404 <==> !is_routed(req),
{
}

} // verus!
