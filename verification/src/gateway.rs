//! The forwarding engine: decides whether a request must be guarded,
//! resolves the backend URL, and relays the backend's outcome as exactly
//! one response.

pub mod guard;
pub mod request;
pub mod response;

use vstd::prelude::*;
use vstd::string::StringExecFns;
use crate::gateway::guard::{
    is_denial_response, strip_bearer_spec, GuardCall, GuardOutcome, Guardian,
};
use crate::gateway::request::{should_guard_spec, ProxyRequest};
use crate::gateway::response::{is_bad_gateway_response, ProxyResponse};
use crate::headers::{first_header, headers_view};

verus! {

/// The backend URL of a request: the application's endpoint followed by
/// the sub-path (which carries its leading slash).
pub open spec fn backend_url_spec(r: ProxyRequest) -> Seq<char> {
    r.application.url@ + r.path@
}

/// The request's Authorization header value, if one was sent.
pub open spec fn auth_header(r: ProxyRequest) -> Option<Seq<char>> {
    first_header(headers_view(r.headers@), "authorization"@)
}

/// Concatenates an application endpoint and a sub-path into the URL the
/// backend is called on.
pub fn to_url(endpoint: &str, path: &str) -> (r: String)
    ensures
        r@ == endpoint@ + path@,
{
    let mut url = endpoint.to_owned();
    url.append(path);
    url
}

/// What the engine does next with a request: deny it outright, ask the
/// guardian first, or forward it to the backend at once.
pub enum RouteStep {
    /// Terminal: the fixed denial response; the backend is never contacted.
    Deny(ProxyResponse),
    /// Ask the authorization endpoint about `credential`, then forward to
    /// `url` only on an allow.
    AskGuardian { guardian_url: String, credential: String, url: String },
    /// Forward to `url` without consulting the guardian.
    Forward { url: String },
}

/// The guard-then-forward decision: a guarded request without a token is
/// denied on the spot; one with a token is forwarded only past the
/// guardian; an exempt request goes straight to the backend.
pub fn route_to(request: &ProxyRequest, guardian: &Guardian) -> (r: RouteStep)
    ensures
        !should_guard_spec(*request) ==> (r matches RouteStep::Forward { url } && url@
            == backend_url_spec(*request)),
        should_guard_spec(*request) ==> match auth_header(*request) {
            None => r matches RouteStep::Deny(resp) && is_denial_response(resp),
            Some(t) => r matches RouteStep::AskGuardian { guardian_url, credential, url }
                && guardian_url@ == guardian.url@ && credential@ == strip_bearer_spec(t) && url@
                == backend_url_spec(*request),
        },
{
    let url = to_url(request.application.url.as_str(), request.path.as_str());
    if !request.should_guard() {
        return RouteStep::Forward { url };
    }
    let token = crate::headers::header_value(&request.headers, "authorization");
    match guardian.guard_request(token.as_ref()) {
        GuardCall::Deny => RouteStep::Deny(Guardian::unauthorized_response()),
        GuardCall::Ask { url: guardian_url, credential } => RouteStep::AskGuardian {
            guardian_url,
            credential,
            url,
        },
    }
}

/// One outbound call to a backend, ready for the transport layer.
pub struct BackendRequest {
    pub url: String,
    pub method: crate::gateway::request::Method,
    pub headers: Vec<(String, String)>,
    pub body: Vec<u8>,
    pub query: Vec<(String, String)>,
}

/// Assembles the outbound backend call: the resolved URL, and the
/// original method, headers (the Authorization header among them,
/// unmodified), body bytes and query mapping, all verbatim.
pub fn backend_request(request: ProxyRequest, url: String) -> (r: BackendRequest)
    ensures
        r.url == url,
        r.method == request.method,
        r.headers == request.headers,
        r.body == request.body,
        r.query == request.query,
{
    BackendRequest {
        url,
        method: request.method,
        headers: request.headers,
        body: request.body,
        query: request.query,
    }
}

/// What came back from the backend call: a reply, or a transport failure.
pub enum BackendOutcome {
    Reply { status: u16, headers: Vec<(String, String)>, body: Vec<u8> },
    Unreachable,
}

/// Relays the backend's outcome as the caller's response: a reply passes
/// through byte-exact with its `Content-Length` recomputed; a transport
/// failure becomes a bad-gateway response rather than a fault.
pub fn relay(outcome: BackendOutcome) -> (r: ProxyResponse)
    ensures
        outcome matches BackendOutcome::Reply { status, headers, body } ==> r.relayed_from(
            body@,
            status,
            headers_view(headers@),
        ),
        outcome is Unreachable ==> is_bad_gateway_response(r),
{
    match outcome {
        BackendOutcome::Reply { status, headers, body } => ProxyResponse::proxy(
            body,
            status,
            headers,
        ),
        BackendOutcome::Unreachable => response::bad_gateway_response(),
    }
}

} // verus!
