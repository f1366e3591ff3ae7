//! The normalized inbound request the dispatcher hands to the forwarding
//! engine, and the decision whether it must pass the guard.

use vstd::prelude::*;
use crate::applications::{contains_route, Application};

verus! {

/// The HTTP methods a route accepts.
#[derive(Clone, Copy, Debug, PartialEq, Eq, Structural)]
pub enum Method {
    Get,
    Post,
    Put,
    Delete,
    Head,
    Trace,
    Options,
    Patch,
}

/// The upper-case name of a method, as it appears on the wire.
pub open spec fn method_name(m: Method) -> Seq<char> {
    match m {
        Method::Get => "GET"@,
        Method::Post => "POST"@,
        Method::Put => "PUT"@,
        Method::Delete => "DELETE"@,
        Method::Head => "HEAD"@,
        Method::Trace => "TRACE"@,
        Method::Options => "OPTIONS"@,
        Method::Patch => "PATCH"@,
    }
}

impl Method {
    pub fn as_str(&self) -> (r: &'static str)
        ensures
            r@ == method_name(*self),
    {
        match self {
            Method::Get => "GET",
            Method::Post => "POST",
            Method::Put => "PUT",
            Method::Delete => "DELETE",
            Method::Head => "HEAD",
            Method::Trace => "TRACE",
            Method::Options => "OPTIONS",
            Method::Patch => "PATCH",
        }
    }
}

/// The method of an inbound request, pulled out of it by the transport
/// layer before dispatch.
pub struct ExtractMethod(pub Method);

/// One inbound request, bound to the application its route belongs to.
/// Body bytes are opaque on both sides of the proxy. Query keys and
/// header names arrive as the transport layer normalized them.
#[derive(Clone)]
pub struct ProxyRequest {
    pub path: String,
    pub method: Method,
    pub headers: Vec<(String, String)>,
    pub body: Vec<u8>,
    pub query: Vec<(String, String)>,
    pub application: Application,
}

/// A request needs the guard unless its method is OPTIONS (preflight
/// bypass) or its sub-path is exempted by its application.
pub open spec fn should_guard_spec(r: ProxyRequest) -> bool {
    r.method != Method::Options && !contains_route(
        r.application.unauthenticated_routes@,
        r.path@,
    )
}

/// Law: a request for a sub-path its application exempts is never
/// guarded, whatever its method or headers; together with the forwarding
/// engine's contract it goes straight to the backend.
pub proof fn lemma_unauthenticated_route_skips_guard(r: ProxyRequest)
    requires
        contains_route(r.application.unauthenticated_routes@, r.path@),
    ensures
        !should_guard_spec(r),
{
}

/// Law: an OPTIONS request bypasses the guard on every path, protected
/// or not.
pub proof fn lemma_options_bypasses_guard(r: ProxyRequest)
    requires
        r.method == Method::Options,
    ensures
        !should_guard_spec(r),
{
}

impl ProxyRequest {
    pub fn should_guard(&self) -> (r: bool)
        ensures
            r == should_guard_spec(*self),
    {
        if self.method == Method::Options {
            return false;
        }
        if self.application.is_unauthenticaded(&self.path) {
            return false;
        }
        true
    }
}

} // verus!

