//! The dispatcher's pure decisions: which handler serves a request,
//! and which origins the cross-origin allow-list admits.
use vstd::prelude::*;
use vstd::string::*;

use crate::text::str_eq;

verus! {

/// The handler a request is routed to.
#[derive(Clone, Copy, Debug, PartialEq, Eq, Structural)]
pub enum Route {
    Health,
    Resume,
    Contact,
    NotFound,
}

/// The routing table: three endpoints, everything else unmatched.
pub open spec fn route_of(method: Seq<char>, path: Seq<char>) -> Route {
    if method == "GET"@ && path == "/health"@ {
        Route::Health
    } else if method == "GET"@ && path == "/api/resume"@ {
        Route::Resume
    } else if method == "POST"@ && path == "/api/contact"@ {
        Route::Contact
    } else {
        Route::NotFound
    }
}

/// Route a request by its method and path.
pub fn route_request(method: &str, path: &str) -> (r: Route)
    ensures
        r == route_of(method@, path@),
{
    proof {
        reveal_strlit("GET");
        reveal_strlit("POST");
        assert("GET"@.len() == 3);
        assert("POST"@.len() == 4);
        assert("GET"@ != "POST"@);
    }
    if str_eq(method, "GET") {
        if str_eq(path, "/health") {
            Route::Health
        } else if str_eq(path, "/api/resume") {
            Route::Resume
        } else {
            Route::NotFound
        }
    } else if str_eq(method, "POST") && str_eq(path, "/api/contact") {
        Route::Contact
    } else {
        Route::NotFound
    }
}

/// The fixed cross-origin allow-list: the origins permitted to read
/// this API's responses from a browser context.
pub open spec fn origin_in_allow_list(o: Seq<char>) -> bool {
    ||| o == "http://localhost:3000"@
    ||| o == "http://localhost:3001"@
    ||| o == "http://localhost:8080"@
    ||| o == "http://localhost:8081"@
    ||| o == "http://127.0.0.1:3000"@
    ||| o == "http://127.0.0.1:3001"@
    ||| o == "http://127.0.0.1:8080"@
    ||| o == "http://127.0.0.1:8081"@
    ||| o == "https://michaelhenry.me"@
}

/// Whether an origin is on the allow-list.
pub fn origin_allowed(origin: &str) -> (r: bool)
    ensures
        r == origin_in_allow_list(origin@),
{
    str_eq(origin, "http://localhost:3000") || str_eq(origin, "http://localhost:3001") || str_eq(
        origin,
        "http://localhost:8080",
    ) || str_eq(origin, "http://localhost:8081") || str_eq(origin, "http://127.0.0.1:3000")
        || str_eq(origin, "http://127.0.0.1:3001") || str_eq(origin, "http://127.0.0.1:8080")
        || str_eq(origin, "http://127.0.0.1:8081") || str_eq(origin, "https://michaelhenry.me")
}

} // verus!
