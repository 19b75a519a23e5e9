//! Text primitives shared by the dispatcher and the download planner:
//! comparison, prefix matching and prefix removal on character sequences.

use vstd::prelude::*;

verus! {

/// What is left of `s` after every leading repetition of `prefix` is removed.
/// An empty `prefix` removes nothing.
pub open spec fn without_leading(s: Seq<char>, prefix: Seq<char>) -> Seq<char>
    decreases s.len(),
{
    if prefix.len() > 0 && prefix.is_prefix_of(s) {
        without_leading(s.skip(prefix.len() as int), prefix)
    } else {
        s
    }
}

/// Whether `pattern` occurs in `text` starting at character `at`.
fn occurs_at(text: &str, at: usize, pattern: &str) -> (found: bool)
    requires
        at <= text@.len(),
    ensures
        found == pattern@.is_prefix_of(text@.skip(at as int)),
{
    let n = text.unicode_len();
    let m = pattern.unicode_len();
    if m > n - at {
        return false;
    }
    let mut i: usize = 0;
    while i < m
        invariant
            n == text@.len(),
            m == pattern@.len(),
            at <= n,
            m <= n - at,
            i <= m,
            forall|k: int| 0 <= k < i ==> text@[at + k] == pattern@[k],
        decreases m - i,
    {
        if text.get_char(at + i) != pattern.get_char(i) {
            return false;
        }
        i += 1;
    }
    true
}

/// Whether `text` begins with `prefix`.
pub fn starts_with(text: &str, prefix: &str) -> (found: bool)
    ensures
        found == prefix@.is_prefix_of(text@),
{
    occurs_at(text, 0, prefix)
}

/// Whether two texts hold the same characters.
pub fn same_text(a: &str, b: &str) -> (same: bool)
    ensures
        same == (a@ == b@),
{
    let n = a.unicode_len();
    if b.unicode_len() != n {
        return false;
    }
    let found = starts_with(a, b);
    proof {
        assert(a@.subrange(0, n as int) =~= a@);
    }
    found
}

/// `text` without any leading repetitions of `prefix`, as an owned string.
pub fn strip_leading(text: &str, prefix: &str) -> (rest: String)
    ensures
        rest@ == without_leading(text@, prefix@),
{
    let n = text.unicode_len();
    let m = prefix.unicode_len();
    let mut at: usize = 0;
    if m > 0 {
        loop
            invariant
                n == text@.len(),
                m == prefix@.len(),
                m > 0,
                at <= n,
                without_leading(text@, prefix@) == without_leading(
                    text@.skip(at as int),
                    prefix@,
                ),
            ensures
                at <= n,
                without_leading(text@, prefix@) == text@.skip(at as int),
            decreases n - at,
        {
            if !occurs_at(text, at, prefix) {
                break;
            }
            proof {
                assert(text@.skip(at as int).skip(m as int) =~= text@.skip(at + m));
            }
            at += m;
        }
    } else {
        proof {
            assert(text@.skip(0) =~= text@);
        }
    }
    String::from_str(text.substring_char(at, n))
}

} // verus!
