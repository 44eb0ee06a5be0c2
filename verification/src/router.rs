//! Pure dispatch: a parsed request selects exactly one handler by its
//! (method, path) pair, the handler builds a response, and the response's
//! wire form is appended to the output stream. Dispatch is total: every
//! pair no registered handler matches falls through to the catch-all,
//! which answers with a 404 response — a normal response, not a failure.

use vstd::prelude::*;

use crate::httprequest::{HttpMethod, HttpRequest};
use crate::httpresponse::{response_serial, serial_of, status_text_of, HttpResponse};
use crate::strutil::str_eq;

verus! {

/// True when the request matches the home-page handler: `GET /`.
pub open spec fn matches_index(m: HttpMethod, path: Seq<char>) -> bool {
    m is Get && path == "/"@
}

/// True when the request matches the greeting handler: `GET /greeting`.
pub open spec fn matches_greeting(m: HttpMethod, path: Seq<char>) -> bool {
    m is Get && path == "/greeting"@
}

/// The status code the router answers with: 200 for a registered
/// (method, path) pair, 404 for every other.
pub open spec fn route_status(m: HttpMethod, path: Seq<char>) -> Seq<char> {
    if matches_index(m, path) || matches_greeting(m, path) {
        "200"@
    } else {
        "404"@
    }
}

/// The body the router answers with, one fixed page per handler.
pub open spec fn route_body(m: HttpMethod, path: Seq<char>) -> Seq<char> {
    if matches_index(m, path) {
        "<h1>Welcome to the home page</h1>"@
    } else if matches_greeting(m, path) {
        "<h1>Hello, friend</h1>"@
    } else {
        "<h1>404 Not Found</h1>"@
    }
}

/// The dispatcher: a fixed table of handlers tried in order, with the
/// catch-all last.
pub struct Router;

impl Router {
    /// Handles `GET /`: the home page, as a 200 response.
    pub fn handle_index() -> (r: HttpResponse)
        ensures
            r.version@ == "HTTP/1.1"@,
            r.status_code@ == "200"@,
            r.status_text@ == status_text_of("200"@),
            r.headers is Some,
            r.headers.unwrap()@ == seq![("Content-Type"@, "text/html"@)],
            r.body is Some,
            r.body.unwrap()@ == "<h1>Welcome to the home page</h1>"@,
    {
        HttpResponse::new("200", None, Some(String::from_str("<h1>Welcome to the home page</h1>")))
    }

    /// Handles `GET /greeting`: the greeting page, as a 200 response.
    pub fn handle_greeting() -> (r: HttpResponse)
        ensures
            r.version@ == "HTTP/1.1"@,
            r.status_code@ == "200"@,
            r.status_text@ == status_text_of("200"@),
            r.headers is Some,
            r.headers.unwrap()@ == seq![("Content-Type"@, "text/html"@)],
            r.body is Some,
            r.body.unwrap()@ == "<h1>Hello, friend</h1>"@,
    {
        HttpResponse::new("200", None, Some(String::from_str("<h1>Hello, friend</h1>")))
    }

    /// The catch-all: answers any unmatched request with a 404 response.
    pub fn handle_not_found() -> (r: HttpResponse)
        ensures
            r.version@ == "HTTP/1.1"@,
            r.status_code@ == "404"@,
            r.status_text@ == status_text_of("404"@),
            r.headers is Some,
            r.headers.unwrap()@ == seq![("Content-Type"@, "text/html"@)],
            r.body is Some,
            r.body.unwrap()@ == "<h1>404 Not Found</h1>"@,
    {
        HttpResponse::new("404", None, Some(String::from_str("<h1>404 Not Found</h1>")))
    }

    /// Selects the one handler the request's (method, path) pair matches
    /// and hands back that handler's response.
    pub fn dispatch(req: &HttpRequest) -> (r: HttpResponse)
        ensures
            r.version@ == "HTTP/1.1"@,
            r.status_code@ == route_status(req.method, req.resource.path@),
            r.status_text@ == status_text_of(r.status_code@),
            r.headers is Some,
            r.headers.unwrap()@ == seq![("Content-Type"@, "text/html"@)],
            r.body is Some,
            r.body.unwrap()@ == route_body(req.method, req.resource.path@),
    {
        let is_get = req.method == HttpMethod::Get;
        if is_get && str_eq(req.resource.path.as_str(), "/") {
            Self::handle_index()
        } else if is_get && str_eq(req.resource.path.as_str(), "/greeting") {
            Self::handle_greeting()
        } else {
            Self::handle_not_found()
        }
    }

    /// Routes one request: dispatches it and appends the selected
    /// response's wire form to `stream`.
    pub fn route(req: HttpRequest, stream: &mut String) -> (r: Result<(), ()>)
        ensures
            r is Ok,
            final(stream)@ == old(stream)@ + serial_of(
                "HTTP/1.1"@,
                route_status(req.method, req.resource.path@),
                status_text_of(route_status(req.method, req.resource.path@)),
                seq![("Content-Type"@, "text/html"@)],
                route_body(req.method, req.resource.path@),
            ),
    {
        let resp = Router::dispatch(&req);
        let r = resp.send_response(stream);
        proof {
            assert(response_serial(resp) == serial_of(
                "HTTP/1.1"@,
                route_status(req.method, req.resource.path@),
                status_text_of(route_status(req.method, req.resource.path@)),
                seq![("Content-Type"@, "text/html"@)],
                route_body(req.method, req.resource.path@),
            ));
        }
        r
    }
}

/// Routing is a function of the request's method and path alone: two
/// requests that agree there — in particular the same request routed twice,
/// with independent response objects — are answered with the same status
/// code and the same body.
pub proof fn lemma_route_deterministic(a: HttpRequest, b: HttpRequest)
    requires
        a.method == b.method,
        a.resource.path@ == b.resource.path@,
    ensures
        route_status(a.method, a.resource.path@) == route_status(b.method, b.resource.path@),
        route_body(a.method, a.resource.path@) == route_body(b.method, b.resource.path@),
{
}

/// Every (method, path) pair outside the registered table routes to the
/// catch-all: the answer's status code is "404".
pub proof fn lemma_unmatched_is_404(m: HttpMethod, path: Seq<char>)
    requires
        !matches_index(m, path),
        !matches_greeting(m, path),
    ensures
        route_status(m, path) == "404"@,
{
}

} // verus!
