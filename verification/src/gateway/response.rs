//! The outbound response: whatever it was built from, its headers carry a
//! `Content-Length` recomputed from the actual body, and nothing else of
//! the backend's headers is touched.

use vstd::prelude::*;
use vstd::string::{StrSliceExecFns, StringSliceAdditionalSpecFns};
use vstd::utf8::encode_utf8;
use crate::headers::{headers_view, strip_content_length, with_content_length};
use crate::text::decimal;

verus! {

/// One response on its way back to the caller.
pub struct ProxyResponse {
    pub body: Vec<u8>,
    pub status: u16,
    pub headers: Vec<(String, String)>,
}

/// Exactly one pair of `h` is named `content-length`, and its value is
/// the decimal rendering of `n`.
pub open spec fn content_length_is_exact(h: Seq<(Seq<char>, Seq<char>)>, n: nat) -> bool {
    exists|i: int|
        0 <= i < h.len() && (#[trigger] h[i]).0 == "content-length"@ && h[i].1 == decimal(n)
            && forall|j: int| 0 <= j < h.len() && j != i ==> (#[trigger] h[j]).0
            != "content-length"@
}

impl ProxyResponse {
    /// How a relayed response is built from what the backend sent: the
    /// body and status pass through unchanged, and the headers keep every
    /// backend pair except `content-length`, which is recomputed from the
    /// body that is actually relayed.
    pub open spec fn relayed_from(
        self,
        body: Seq<u8>,
        status: u16,
        sent_headers: Seq<(Seq<char>, Seq<char>)>,
    ) -> bool {
        &&& self.body@ == body
        &&& self.status == status
        &&& headers_view(self.headers@) == strip_content_length(sent_headers).push(
            ("content-length"@, decimal(body.len())),
        )
    }

    /// Builds the relayed response for a backend reply.
    pub fn proxy(body: Vec<u8>, status: u16, proxy_headers: Vec<(String, String)>) -> (r: Self)
        ensures
            r.relayed_from(body@, status, headers_view(proxy_headers@)),
    {
        let len = body.len();
        let headers = with_content_length(&proxy_headers, len);
        ProxyResponse { body, status, headers }
    }

    /// Builds the relayed response from a textual body, which is carried
    /// as its UTF-8 bytes.
    pub fn new(body: String, status: u16, headers: Vec<(String, String)>) -> (r: Self)
        ensures
            r.relayed_from(encode_utf8(body@), status, headers_view(headers@)),
    {
        let bytes = body.as_str().as_bytes_vec();
        Self::proxy(bytes, status, headers)
    }
}

/// Law: a response built by the engine carries exactly one
/// `Content-Length` header, equal to the byte length of its body, whatever
/// the backend reported in `sent_headers`.
pub proof fn lemma_content_length_recomputed(
    r: ProxyResponse,
    body: Seq<u8>,
    status: u16,
    sent_headers: Seq<(Seq<char>, Seq<char>)>,
)
    requires
        r.relayed_from(body, status, sent_headers),
    ensures
        content_length_is_exact(headers_view(r.headers@), r.body@.len()),
{
    let h = headers_view(r.headers@);
    let stripped = strip_content_length(sent_headers);
    crate::headers::lemma_strip_is_clean(sent_headers);
    assert(h[h.len() - 1].0 == "content-length"@);
    assert(forall|j: int| 0 <= j < h.len() - 1 ==> (#[trigger] h[j]).0 != "content-length"@);
}

/// The response for a backend that could not be reached: a bad-gateway
/// status with a fixed plain-text body, never a fault.
pub open spec fn is_bad_gateway_response(r: ProxyResponse) -> bool {
    &&& r.status == 502
    &&& r.body@ == "Bad Gateway".spec_bytes()
    &&& r.headers@.len() == 2
    &&& headers_view(r.headers@)[0] == ("content-type"@, "text/plain"@)
    &&& headers_view(r.headers@)[1] == ("content-length"@, decimal(r.body@.len()))
}

/// Builds the bad-gateway response.
pub fn bad_gateway_response() -> (r: ProxyResponse)
    ensures
        is_bad_gateway_response(r),
{
    let body = "Bad Gateway".as_bytes_vec();
    let mut headers: Vec<(String, String)> = Vec::new();
    headers.push(("content-type".to_owned(), "text/plain".to_owned()));
    let ghost sent = headers_view(headers@);
    let r = ProxyResponse::proxy(body, 502, headers);
    proof {
        broadcast use crate::headers::lemma_headers_view_len, crate::headers::lemma_headers_view_index;

        reveal_strlit("content-type");
        reveal_strlit("content-length");
        assert("content-type"@.len() == 12);
        assert("content-length"@.len() == 14);
        assert(sent.len() == 1);
        assert(sent[0] == ("content-type"@, "text/plain"@));
        crate::headers::lemma_strip_singleton(sent);
        let hv = headers_view(r.headers@);
        assert(hv == sent.push(("content-length"@, decimal(r.body@.len()))));
        assert(hv.len() == 2 && r.headers@.len() == hv.len());
        assert(hv[0] == ("content-type"@, "text/plain"@));
        assert(hv[1] == ("content-length"@, decimal(r.body@.len())));
    }
    r
}

} // verus!
