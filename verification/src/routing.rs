//! The dispatcher's verified half: the route pattern each application is
//! bound under, and the fixed record emitted before a request is handed
//! to the forwarding engine.

use vstd::prelude::*;
use vstd::string::StringExecFns;
use crate::applications::{lower_of, Application};
use crate::gateway::backend_url_spec;
use crate::gateway::request::{method_name, ProxyRequest};

verus! {

/// The catch-all pattern an application's routes are registered under:
/// its domain segment followed by an arbitrary-depth remainder.
pub fn route_pattern(app: &Application) -> (r: String)
    ensures
        r@ == "/"@ + lower_of(app.name@) + "/*path"@,
{
    let mut pattern = "/".to_owned();
    let domain = app.domain();
    pattern.append(domain.as_str());
    pattern.append("/*path");
    pattern
}

/// The four fields recorded for every dispatched request: the matched
/// application's domain, the sub-path, the resolved backend URL, and the
/// method.
pub struct LogRecord {
    pub application: String,
    pub path: String,
    pub url: String,
    pub method: String,
}

/// Builds the record the dispatcher hands to its recorder before
/// delegating to the forwarding engine.
pub fn log_record(request: &ProxyRequest) -> (r: LogRecord)
    ensures
        r.application@ == lower_of(request.application.name@),
        r.path@ == request.path@,
        r.url@ == backend_url_spec(*request),
        r.method@ == method_name(request.method),
{
    LogRecord {
        application: request.application.domain(),
        path: request.path.clone(),
        url: crate::gateway::to_url(request.application.url.as_str(), request.path.as_str()),
        method: request.method.as_str().to_owned(),
    }
}

} // verus!
