//! The route table, and the function from a request to its response.

use crate::handlers::{
    echo, echo_response, healthz, healthz_response, not_found, not_found_response, root,
    root_response,
};
use crate::message::{Method, Request, RequestView, Response, ResponseView};
use vstd::prelude::*;
use vstd::string::StringExecFns;

verus! {

/// Where a request goes.
#[derive(Clone, Copy, PartialEq, Eq, Structural, Debug)]
pub enum Route {
    Root,
    Healthz,
    Echo,
    NotFound,
}

/// The route table: `GET /`, `GET /healthz` and `POST /echo`; any other pair
/// of method and path matches nothing. Paths are compared exactly.
pub open spec fn route_of(method: Method, path: Seq<char>) -> Route {
    if method == Method::Get && path == "/"@ {
        Route::Root
    } else if method == Method::Get && path == "/healthz"@ {
        Route::Healthz
    } else if method == Method::Post && path == "/echo"@ {
        Route::Echo
    } else {
        Route::NotFound
    }
}

/// The response that a request is owed.
pub open spec fn response_to(req: RequestView) -> ResponseView {
    match route_of(req.method, req.path) {
        Route::Root => root_response(),
        Route::Healthz => healthz_response(),
        Route::Echo => echo_response(req.headers, req.body),
        Route::NotFound => not_found_response(),
    }
}

/// Whether a path is the given one.
fn path_is(path: &str, expected: &str) -> (same: bool)
    ensures
        same == (path@ == expected@),
{
    String::from_str(path) == String::from_str(expected)
}

/// Looks a method and a path up in the route table.
pub fn route(method: Method, path: &str) -> (r: Route)
    ensures
        r == route_of(method, path@),
{
    match method {
        Method::Get => {
            if path_is(path, "/") {
                Route::Root
            } else if path_is(path, "/healthz") {
                Route::Healthz
            } else {
                Route::NotFound
            }
        },
        Method::Post => {
            if path_is(path, "/echo") {
                Route::Echo
            } else {
                Route::NotFound
            }
        },
        _ => Route::NotFound,
    }
}

/// Answers a request: finds its route and runs the handler.
pub fn handle(req: Request) -> (resp: Response)
    ensures
        resp@ == response_to(req@),
{
    match route(req.method, req.path.as_str()) {
        Route::Root => root(),
        Route::Healthz => healthz(),
        Route::Echo => echo(&req.headers, req.body),
        Route::NotFound => not_found(),
    }
}

} // verus!
