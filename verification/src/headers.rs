//! The header-map model: an ordered sequence of name/value pairs, looked
//! at through its character-level view. Header names are stored as the
//! transport layer hands them over, already lowercased.

use vstd::prelude::*;
use crate::text::string_eq_str;

verus! {

/// The name/value pairs of a header map, as sequences of characters.
pub open spec fn headers_view(hs: Seq<(String, String)>) -> Seq<(Seq<char>, Seq<char>)> {
    hs.map_values(|p: (String, String)| (p.0@, p.1@))
}

/// The value of the first header with the given name, if any.
pub open spec fn first_header(h: Seq<(Seq<char>, Seq<char>)>, name: Seq<char>) -> Option<
    Seq<char>,
>
    decreases h.len(),
{
    if h.len() == 0 {
        None
    } else if h[0].0 == name {
        Some(h[0].1)
    } else {
        first_header(h.drop_first(), name)
    }
}

proof fn lemma_first_header_skip(h: Seq<(Seq<char>, Seq<char>)>, name: Seq<char>, i: int)
    requires
        0 <= i <= h.len(),
        forall|j: int| 0 <= j < i ==> h[j].0 != name,
    ensures
        first_header(h, name) == first_header(h.skip(i), name),
    decreases i,
{
    if i > 0 {
        assert(h.skip(0) =~= h);
        lemma_first_header_skip(h.drop_first(), name, i - 1);
        assert(h.drop_first().skip(i - 1) =~= h.skip(i));
    } else {
        assert(h.skip(0) =~= h);
    }
}

/// Looks up the value of the first header carrying `name`.
pub fn header_value(headers: &Vec<(String, String)>, name: &str) -> (r: Option<String>)
    ensures
        match first_header(headers_view(headers@), name@) {
            Some(v) => r matches Some(s) && s@ == v,
            None => r is None,
        },
{
    let ghost hv = headers_view(headers@);
    let n = headers.len();
    let mut i: usize = 0;
    while i < n
        invariant
            n == headers.len(),
            0 <= i <= n,
            hv == headers_view(headers@),
            forall|j: int| 0 <= j < i ==> hv[j].0 != name@,
        decreases n - i,
    {
        if string_eq_str(&headers[i].0, name) {
            let v = headers[i].1.clone();
            proof {
                lemma_first_header_skip(hv, name@, i as int);
                assert(hv.skip(i as int)[0] == hv[i as int]);
            }
            return Some(v);
        }
        i += 1;
    }
    proof {
        lemma_first_header_skip(hv, name@, n as int);
        assert(hv.skip(n as int) =~= Seq::<(Seq<char>, Seq<char>)>::empty());
    }
    None
}

pub broadcast proof fn lemma_headers_view_len(hs: Seq<(String, String)>)
    ensures
        #[trigger] headers_view(hs).len() == hs.len(),
{
}

pub broadcast proof fn lemma_headers_view_index(hs: Seq<(String, String)>, i: int)
    requires
        0 <= i < hs.len(),
    ensures
        #[trigger] headers_view(hs)[i] == (hs[i].0@, hs[i].1@),
{
}

/// The header pairs of `h` whose name is not `content-length`.
pub open spec fn strip_content_length(h: Seq<(Seq<char>, Seq<char>)>) -> Seq<
    (Seq<char>, Seq<char>),
> {
    h.filter(|p: (Seq<char>, Seq<char>)| p.0 != "content-length"@)
}

pub proof fn lemma_strip_empty()
    ensures
        strip_content_length(Seq::empty()) == Seq::<(Seq<char>, Seq<char>)>::empty(),
{
    reveal(Seq::filter);
    assert(strip_content_length(Seq::empty()) =~= Seq::<(Seq<char>, Seq<char>)>::empty());
}

pub proof fn lemma_strip_push(h: Seq<(Seq<char>, Seq<char>)>, p: (Seq<char>, Seq<char>))
    ensures
        p.0 != "content-length"@ ==> strip_content_length(h.push(p)) == strip_content_length(
            h,
        ).push(p),
        p.0 == "content-length"@ ==> strip_content_length(h.push(p)) == strip_content_length(h),
{
    reveal(Seq::filter);
    assert(h.push(p).drop_last() =~= h);
    assert(h.push(p).last() == p);
}

/// Stripping leaves a one-pair sequence alone when that pair is not a
/// `content-length`.
pub proof fn lemma_strip_singleton(h: Seq<(Seq<char>, Seq<char>)>)
    requires
        h.len() == 1,
        h[0].0 != "content-length"@,
    ensures
        strip_content_length(h) == h,
{
    lemma_strip_empty();
    lemma_strip_push(Seq::empty(), h[0]);
    assert(Seq::<(Seq<char>, Seq<char>)>::empty().push(h[0]) =~= h);
}

/// No pair of a stripped header sequence is named `content-length`.
pub proof fn lemma_strip_is_clean(h: Seq<(Seq<char>, Seq<char>)>)
    ensures
        forall|j: int|
            0 <= j < strip_content_length(h).len() ==> (#[trigger] strip_content_length(h)[j]).0
                != "content-length"@,
{
    broadcast use Seq::lemma_filter_pred;

}

/// Rebuilds a header map around an exact body length: every
/// `content-length` pair the backend sent is dropped, and a single one,
/// recomputed from `body_len`, is appended.
pub fn with_content_length(proxy_headers: &Vec<(String, String)>, body_len: usize) -> (r: Vec<
    (String, String),
>)
    ensures
        headers_view(r@) == strip_content_length(headers_view(proxy_headers@)).push(
            ("content-length"@, crate::text::decimal(body_len as nat)),
        ),
{
    let ghost pv = headers_view(proxy_headers@);
    let n = proxy_headers.len();
    let mut out: Vec<(String, String)> = Vec::new();
    let mut i: usize = 0;
    proof {
        lemma_strip_empty();
        assert(headers_view(out@) =~= strip_content_length(headers_view(proxy_headers@.take(0))));
        assert(headers_view(proxy_headers@.take(0)) =~= Seq::<(Seq<char>, Seq<char>)>::empty());
    }
    while i < n
        invariant
            n == proxy_headers.len(),
            0 <= i <= n,
            pv == headers_view(proxy_headers@),
            headers_view(out@) == strip_content_length(headers_view(proxy_headers@.take(i as int))),
        decreases n - i,
    {
        let ghost prev = headers_view(proxy_headers@.take(i as int));
        let ghost p = (proxy_headers@[i as int].0@, proxy_headers@[i as int].1@);
        if !string_eq_str(&proxy_headers[i].0, "content-length") {
            out.push((proxy_headers[i].0.clone(), proxy_headers[i].1.clone()));
            proof {
                lemma_strip_push(prev, p);
                assert(headers_view(proxy_headers@.take(i + 1)) =~= prev.push(p));
                assert(headers_view(out@) =~= strip_content_length(prev).push(p));
            }
        } else {
            proof {
                lemma_strip_push(prev, p);
                assert(headers_view(proxy_headers@.take(i + 1)) =~= prev.push(p));
            }
        }
        i += 1;
    }
    proof {
        assert(proxy_headers@.take(n as int) =~= proxy_headers@);
    }
    out.push(("content-length".to_owned(), crate::text::usize_to_decimal(body_len)));
    proof {
        assert(headers_view(out@) =~= strip_content_length(headers_view(proxy_headers@)).push(
            ("content-length"@, crate::text::decimal(body_len as nat)),
        ));
    }
    out
}

} // verus!

