//! The agent's local socket server: which handler a request reaches, and the fixed
//! answer of the liveness check.

use vstd::prelude::*;
use crate::strings::str_eq;

verus! {

/// The handler a request reaches.
#[derive(Debug, Clone, Copy, PartialEq, Eq, Structural)]
pub enum Route {
    /// `GET /v1/test`: the liveness check.
    Test,
    /// `GET /v1/version`: the agent's version.
    Version,
    /// Anything else.
    NotFound,
}

/// The handler of a request with the method and the path.
pub open spec fn spec_route(method: Seq<char>, path: Seq<char>) -> Route {
    if method == "GET"@ && path == "/v1/test"@ {
        Route::Test
    } else if method == "GET"@ && path == "/v1/version"@ {
        Route::Version
    } else {
        Route::NotFound
    }
}

/// The handler of a request with the method and the path.
pub fn route(method: &str, path: &str) -> (r: Route)
    ensures
        r == spec_route(method@, path@),
{
    let get = str_eq(method, "GET");
    if get && str_eq(path, "/v1/test") {
        Route::Test
    } else if get && str_eq(path, "/v1/version") {
        Route::Version
    } else {
        Route::NotFound
    }
}

/// The status of a request that was served.
pub const HTTP_OK: u16 = 200;

/// The status of a request for a path the server does not have.
pub const HTTP_NOT_FOUND: u16 = 404;

/// The JSON body of the liveness check.
pub open spec fn test_body() -> Seq<char> {
    "{\"server\":\"miru-config-agent\",\"status\":\"ok\"}"@
}

/// The answer to the liveness check: status 200 and the server's name with `"ok"`.
pub fn test_response() -> (r: (u16, String))
    ensures
        r.0 == 200,
        r.1@ == test_body(),
{
    proof {
        reveal_strlit("{\"server\":\"miru-config-agent\",\"status\":\"ok\"}");
    }
    (HTTP_OK, "{\"server\":\"miru-config-agent\",\"status\":\"ok\"}".to_string())
}

} // verus!
