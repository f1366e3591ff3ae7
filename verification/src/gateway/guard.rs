//! The authorization guard. Its policy is fail-closed: a missing token,
//! a rejected token, and an unreachable authorization service all yield
//! the same fixed denial response, so the caller cannot tell which
//! failure occurred.

use vstd::prelude::*;
use vstd::string::{StrSliceExecFns, StringExecFns};
use vstd::utf8::encode_utf8;
use crate::date::{dotless, now_timestamp};
use crate::gateway::response::ProxyResponse;
use crate::headers::{headers_view, lemma_strip_singleton};
use crate::text::decimal;

verus! {

/// The authorization delegate: where allow/deny questions are sent.
#[derive(Clone)]
pub struct Guardian {
    pub url: String,
}

/// The guard's first step, from the token alone: deny on the spot, or
/// ask the authorization endpoint about a credential.
pub enum GuardCall {
    Deny,
    Ask { url: String, credential: String },
}

/// What came back from the authorization endpoint: a status, or nothing
/// (timeout, refused connection, failed resolution).
pub enum GuardOutcome {
    Status(u16),
    Unreachable,
}

/// The credential carried by a bearer token: an optional leading
/// `"Bearer "` is stripped, the rest passes through unchanged.
pub open spec fn strip_bearer_spec(t: Seq<char>) -> Seq<char> {
    if t.len() >= 7 && t.subrange(0, 7) == "Bearer "@ {
        t.subrange(7, t.len() as int)
    } else {
        t
    }
}

/// Strips an optional leading `"Bearer "` prefix from a token.
pub fn strip_bearer(t: &str) -> (r: String)
    ensures
        r@ == strip_bearer_spec(t@),
{
    let n = t.unicode_len();
    if n >= 7 {
        let prefix = t.substring_char(0, 7).to_owned();
        let bearer = "Bearer ".to_owned();
        if prefix == bearer {
            t.substring_char(7, n).to_owned()
        } else {
            t.to_owned()
        }
    } else {
        t.to_owned()
    }
}

/// An outcome allows the request only when the endpoint was reached and
/// replied with a success status; everything else denies.
pub open spec fn guard_allows(o: GuardOutcome) -> bool {
    match o {
        GuardOutcome::Status(s) => 200 <= s < 300,
        GuardOutcome::Unreachable => false,
    }
}

/// The fixed denial body, around a given timestamp.
pub open spec fn denial_body(ts: Seq<char>) -> Seq<char> {
    "{\"message\":\"Acesso não autorizado!\",\"code\":5,\"timestamp\":\""@ + ts + "\"}"@
}

/// The fixed denial response: a 401 whose body is the fixed JSON message
/// around some whole-second timestamp, served as JSON with an exact
/// `Content-Length`.
pub open spec fn is_denial_response(r: ProxyResponse) -> bool {
    &&& r.status == 401
    &&& exists|ts: Seq<char>| #![auto] r.body@ == encode_utf8(denial_body(ts)) && dotless(ts)
    &&& r.headers@.len() == 2
    &&& headers_view(r.headers@)[0] == ("content-type"@, "application/json"@)
    &&& headers_view(r.headers@)[1] == ("content-length"@, decimal(r.body@.len()))
}

/// Law: the guard is fail-closed — when the authorization endpoint
/// cannot be reached, no request is allowed through; with the guard's
/// contract, every such request gets the fixed denial response, not a
/// fault.
pub proof fn lemma_unreachable_guardian_denies(o: GuardOutcome)
    requires
        o is Unreachable,
    ensures
        !guard_allows(o),
{
}

impl Guardian {
    pub fn new(url: String) -> (r: Self)
        ensures
            r.url == url,
    {
        Guardian { url }
    }

    /// The guard's first step: without a token the request is denied
    /// without any network call; with one, the authorization endpoint is
    /// to be asked about the stripped credential.
    pub fn guard_request(&self, token: Option<&String>) -> (r: GuardCall)
        ensures
            match token {
                None => r is Deny,
                Some(t) => r matches GuardCall::Ask { url, credential } && url@ == self.url@
                    && credential@ == strip_bearer_spec(t@),
            },
    {
        match token {
            None => GuardCall::Deny,
            Some(t) => GuardCall::Ask {
                url: self.url.clone(),
                credential: strip_bearer(t.as_str()),
            },
        }
    }

    /// The guard's second step: judges what came back from the
    /// authorization endpoint. Fail-closed: any outcome but a success
    /// status yields the fixed denial response.
    pub fn guard_decision(outcome: &GuardOutcome) -> (r: Option<ProxyResponse>)
        ensures
            guard_allows(*outcome) ==> r is None,
            !guard_allows(*outcome) ==> (r matches Some(resp) && is_denial_response(resp)),
    {
        match outcome {
            GuardOutcome::Status(s) => {
                if 200 <= *s && *s < 300 {
                    None
                } else {
                    Some(Guardian::unauthorized_response())
                }
            },
            GuardOutcome::Unreachable => Some(Guardian::unauthorized_response()),
        }
    }

    /// The fixed denial response around the given timestamp.
    pub fn unauthorized_response_at(ts: &str) -> (r: ProxyResponse)
        ensures
            r.status == 401,
            r.body@ == encode_utf8(denial_body(ts@)),
            r.headers@.len() == 2,
            headers_view(r.headers@)[0] == ("content-type"@, "application/json"@),
            headers_view(r.headers@)[1] == ("content-length"@, decimal(r.body@.len())),
    {
        let mut body = "{\"message\":\"Acesso não autorizado!\",\"code\":5,\"timestamp\":\"".to_owned();
        body.append(ts);
        body.append("\"}");
        proof {
            assert(body@ =~= denial_body(ts@));
        }
        let mut headers: Vec<(String, String)> = Vec::new();
        headers.push(("content-type".to_owned(), "application/json".to_owned()));
        let ghost sent = headers_view(headers@);
        let r = ProxyResponse::new(body, 401, headers);
        proof {
            broadcast use crate::headers::lemma_headers_view_len, crate::headers::lemma_headers_view_index;

            reveal_strlit("content-type");
            reveal_strlit("content-length");
            assert("content-type"@.len() == 12);
            assert("content-length"@.len() == 14);
            assert(sent.len() == 1);
            assert(sent[0] == ("content-type"@, "application/json"@));
            lemma_strip_singleton(sent);
            let hv = headers_view(r.headers@);
            assert(hv == sent.push(("content-length"@, decimal(r.body@.len()))));
            assert(hv.len() == 2 && r.headers@.len() == hv.len());
            assert(hv[0] == ("content-type"@, "application/json"@));
            assert(hv[1] == ("content-length"@, decimal(r.body@.len())));
        }
        r
    }

    /// The fixed denial response, timestamped with the current local
    /// time truncated to whole seconds.
    pub fn unauthorized_response() -> (r: ProxyResponse)
        ensures
            is_denial_response(r),
    {
        let ts = now_timestamp();
        let r = Self::unauthorized_response_at(ts.as_str());
        proof {
            assert(r.body@ == encode_utf8(denial_body(ts@)) && dotless(ts@));
        }
        r
    }
}

} // verus!
