//! Request dispatch: each inbound request maps to exactly one ingestion route
//! or to the fallback, by method and path alone. The router never inspects
//! the body; payload validation belongs to the matched handler.

use vstd::prelude::*;
use crate::outcome::{Outcome, rejected, reject};

verus! {

/// The HTTP method of an inbound request, as far as dispatch cares.
#[derive(Clone, Copy, Debug, PartialEq, Eq, Structural)]
pub enum HttpMethod {
    Get,
    Post,
    Put,
    Delete,
    Head,
    Options,
    Patch,
    Other,
}

/// The three ingestion routes, or the fallback.
#[derive(Clone, Copy, Debug, PartialEq, Eq, Structural)]
pub enum Route {
    UploadBase64,
    UploadMultipart,
    FetchFromUri,
    Unknown,
}

/// The dispatch table: POST to one of the three fixed paths selects its
/// handler; every other method/path pair falls back.
pub open spec fn spec_route(m: HttpMethod, path: Seq<char>) -> Route {
    if m == HttpMethod::Post && path == "/base64"@ {
        Route::UploadBase64
    } else if m == HttpMethod::Post && path == "/multipart"@ {
        Route::UploadMultipart
    } else if m == HttpMethod::Post && path == "/from_uri"@ {
        Route::FetchFromUri
    } else {
        Route::Unknown
    }
}

/// Dispatches one request to exactly one route.
pub fn route_of(m: HttpMethod, path: &str) -> (r: Route)
    ensures
        r == spec_route(m, path@),
{
    if !matches!(m, HttpMethod::Post) {
        return Route::Unknown;
    }
    let p = String::from_str(path);
    if p == String::from_str("/base64") {
        Route::UploadBase64
    } else if p == String::from_str("/multipart") {
        Route::UploadMultipart
    } else if p == String::from_str("/from_uri") {
        Route::FetchFromUri
    } else {
        Route::Unknown
    }
}

/// The fallback terminal state: status 400, body `error`, no file written.
pub fn unknown_request() -> (r: Outcome)
    ensures
        rejected(r, 400, "error"@),
{
    reject(400, "error")
}

/// A request that is not a POST to one of the three ingestion paths falls
/// back, whatever else it carries: the fallback reply is built from method
/// and path alone.
pub proof fn lemma_fallback_route(m: HttpMethod, path: Seq<char>)
    requires
        m != HttpMethod::Post || (path != "/base64"@ && path != "/multipart"@ && path
            != "/from_uri"@),
    ensures
        spec_route(m, path) == Route::Unknown,
{
}

} // verus!
