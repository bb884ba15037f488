//! The two read-only routes of the exposition endpoint, and the status code
//! and fallback body each request ends with.

use vstd::prelude::*;
use vstd::string::StringExecFns;

verus! {

/// Where a request is dispatched.
#[derive(Clone, Copy, PartialEq, Eq, Structural, Debug)]
pub enum Route {
    /// `GET /metrics`: run a device pass and return the encoded registry.
    Metrics,
    /// `GET /gpustat`: run a process pass and return the status lines.
    GpuStat,
    /// Anything else: not found.
    NotFound,
}

/// The route of a request: only the two exact GET paths are served.
pub open spec fn route_spec(method: Seq<char>, path: Seq<char>) -> Route {
    if method == ("GET")@ && path == ("/metrics")@ {
        Route::Metrics
    } else if method == ("GET")@ && path == ("/gpustat")@ {
        Route::GpuStat
    } else {
        Route::NotFound
    }
}

/// Relies on str's `PartialEq`: equality of two string slices agrees with
/// equality of their character sequences.
#[verifier::external_body]
fn str_eq(a: &str, b: &str) -> (r: bool)
    ensures
        r == (a@ == b@),
{
    a == b
}

/// Dispatch a request by method and path.
pub fn route(method: &str, path: &str) -> (r: Route)
    ensures
        r == route_spec(method@, path@),
{
    if str_eq(method, "GET") {
        if str_eq(path, "/metrics") {
            return Route::Metrics;
        }
        if str_eq(path, "/gpustat") {
            return Route::GpuStat;
        }
    }
    Route::NotFound
}

/// The status a request ends with: an unknown route is 404 whatever the
/// collector's state; a served route is 200 when its pass completed and 500
/// when the pass failed.
pub open spec fn response_status_spec(r: Route, pass_ok: bool) -> u16 {
    match r {
        Route::NotFound => 404,
        Route::Metrics => if pass_ok {
            200
        } else {
            500
        },
        Route::GpuStat => if pass_ok {
            200
        } else {
            500
        },
    }
}

/// The status code of one handled request.
pub fn response_status(r: &Route, pass_ok: bool) -> (c: u16)
    ensures
        c == response_status_spec(*r, pass_ok),
{
    match r {
        Route::NotFound => 404,
        Route::Metrics => if pass_ok {
            200
        } else {
            500
        },
        Route::GpuStat => if pass_ok {
            200
        } else {
            500
        },
    }
}

/// The body of the unknown-route response.
pub fn not_found_body() -> (s: String)
    ensures
        s@ == ("Not found")@,
{
    String::from_str("Not found")
}

} // verus!
