//! The front door: which of the two paths a request takes.

use vstd::prelude::*;
use crate::text::str_eq;

verus! {

/// The base domain under which tokens are routed, where none is configured.
pub const BASE_DOMAIN: &'static str = "directdns.net";

/// The path of the creation endpoint.
pub const CREATE_PATH: &'static str = "/api/create";

/// The two paths through the service.
#[derive(Debug, Clone, Copy, PartialEq, Eq)]
pub enum Route {
    /// The request is for the creation endpoint.
    Create,
    /// The request is to be proxied.
    Proxy,
}

/// The route of a request by the path of its URI: the creation endpoint
/// has one path, and everything else is proxied.
pub fn route_for(path: &str) -> (route: Route)
    ensures
        route == if path@ == CREATE_PATH@ {
            Route::Create
        } else {
            Route::Proxy
        },
{
    if str_eq(path, CREATE_PATH) {
        Route::Create
    } else {
        Route::Proxy
    }
}

} // verus!
