//! Local timestamps truncated to whole seconds, for the denial response
//! body: the wall clock is read outside, the truncation is verified here.

use vstd::prelude::*;
use vstd::string::StrSliceExecFns;

verus! {

/// Holds when no character of `s` is a decimal point, i.e. when a rendered
/// timestamp carries no sub-second fraction.
pub open spec fn dotless(s: Seq<char>) -> bool {
    forall|i: int| 0 <= i < s.len() ==> s[i] != '.'
}

/// The number of characters of `s` before its first `'.'` (all of them if
/// there is none).
pub open spec fn dot_prefix_len(s: Seq<char>) -> int
    decreases s.len(),
{
    if s.len() == 0 {
        0
    } else if s[0] == '.' {
        0
    } else {
        1 + dot_prefix_len(s.drop_first())
    }
}

proof fn lemma_dot_prefix_len(s: Seq<char>, i: int)
    requires
        0 <= i <= s.len(),
        forall|j: int| 0 <= j < i ==> s[j] != '.',
        i == s.len() || s[i] == '.',
    ensures
        dot_prefix_len(s) == i,
    decreases i,
{
    if i > 0 {
        lemma_dot_prefix_len(s.drop_first(), i - 1);
    }
}

/// Cuts `s` at its first decimal point: a timestamp with a fractional
/// part keeps only the part before the fraction.
pub fn truncate_subseconds(s: &str) -> (r: String)
    ensures
        r@ == s@.take(dot_prefix_len(s@)),
        dotless(r@),
{
    let n = s.unicode_len();
    let mut i: usize = 0;
    while i < n && s.get_char(i) != '.'
        invariant
            n == s@.len(),
            0 <= i <= n,
            forall|j: int| 0 <= j < i ==> s@[j] != '.',
        decreases n - i,
    {
        i += 1;
    }
    proof {
        lemma_dot_prefix_len(s@, i as int);
    }
    s.substring_char(0, i).to_owned()
}

/// Relies on chrono's `Local::now` and its `Display` rendering of the
/// current local date and time; the result depends on the wall clock, so
/// nothing is promised of it. chrono panics when the system clock is
/// before the Unix epoch, so this call is not offered as panic-free.
#[verifier::external_body]
fn local_now_string() -> String {
    format!("{}", chrono::Local::now())
}

/// The current local time, rendered and truncated to whole seconds.
pub fn now_timestamp() -> (r: String)
    ensures
        dotless(r@),
{
    let raw = local_now_string();
    truncate_subseconds(raw.as_str())
}

} // verus!
