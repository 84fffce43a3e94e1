//! Extraction of the relevant part of the compiler's error output.
//!
//! A failed build prints a toolchain banner followed by diagnostics
//! that name the scratch project's main source file. The response
//! keeps only the text from the first occurrence of the main-file
//! marker onward; output without the marker is reported as having an
//! unexpected format.

use vstd::prelude::*;

verus! {

/// The pattern occurs in `s` starting at index `i`.
pub open spec fn occurs_at(s: Seq<char>, pat: Seq<char>, i: int) -> bool {
    0 <= i && i + pat.len() <= s.len() && s.subrange(i, i + pat.len()) == pat
}

/// The pattern occurs somewhere in `s`.
pub open spec fn occurs(s: Seq<char>, pat: Seq<char>) -> bool {
    exists|i: int| occurs_at(s, pat, i)
}

/// `i` is the first index at which the pattern occurs in `s`.
pub open spec fn first_occurrence(s: Seq<char>, pat: Seq<char>, i: int) -> bool {
    occurs_at(s, pat, i) && (forall|j: int| 0 <= j < i ==> !occurs_at(s, pat, j))
}

/// The marker that identifies the scratch project's main source file
/// in compiler diagnostics.
pub open spec fn spec_main_file_marker() -> Seq<char> {
    "/main.sw:"@
}

/// The marker as an executable string.
pub fn main_file_marker() -> (r: &'static str)
    ensures
        r@ == spec_main_file_marker(),
{
    "/main.sw:"
}

/// Whether the pattern occurs in `s` starting at `i`, checked one
/// character at a time.
fn matches_at(s: &str, pat: &str, i: usize) -> (r: bool)
    requires
        i + pat@.len() <= s@.len(),
        s@.len() <= usize::MAX,
    ensures
        r == occurs_at(s@, pat@, i as int),
{
    let m = pat.unicode_len();
    let mut k: usize = 0;
    while k < m
        invariant
            m == pat@.len(),
            i + m <= s@.len(),
            s@.len() <= usize::MAX,
            k <= m,
            forall|j: int| 0 <= j < k ==> s@[i + j] == pat@[j],
        decreases m - k,
    {
        if s.get_char(i + k) != pat.get_char(k) {
            proof {
                assert(s@.subrange(i as int, i + pat@.len())[k as int] != pat@[k as int]);
            }
            return false;
        }
        k = k + 1;
    }
    proof {
        assert(s@.subrange(i as int, i + pat@.len()) =~= pat@);
    }
    true
}

/// Find the first occurrence of `pat` in `s`, if there is one.
pub fn find_str(s: &str, pat: &str) -> (r: Option<usize>)
    ensures
        match r {
            Some(i) => first_occurrence(s@, pat@, i as int),
            None => !occurs(s@, pat@),
        },
{
    let n = s.unicode_len();
    let m = pat.unicode_len();
    if m > n {
        return None;
    }
    if m == 0 {
        proof {
            assert(s@.subrange(0, 0) =~= pat@);
        }
        return Some(0);
    }
    let mut i: usize = 0;
    while i <= n - m
        invariant
            n == s@.len(),
            m == pat@.len(),
            0 < m <= n,
            i <= n - m + 1,
            forall|j: int| 0 <= j < i ==> !occurs_at(s@, pat@, j),
        decreases n - m - i + 1,
    {
        if matches_at(s, pat, i) {
            return Some(i);
        }
        i = i + 1;
    }
    None
}

/// Keep only the part of the compiler output from the first
/// occurrence of the main-file marker onward; nothing is returned
/// exactly when the marker is absent.
pub fn extract_error(stderr: &str) -> (r: Option<String>)
    ensures
        r is Some <==> occurs(stderr@, spec_main_file_marker()),
        r is Some ==> exists|i: int|
            first_occurrence(stderr@, spec_main_file_marker(), i) && r->0@ == stderr@.subrange(
                i,
                stderr@.len() as int,
            ),
        forall|i: int|
            first_occurrence(stderr@, spec_main_file_marker(), i) ==> r->0@ == stderr@.subrange(
                i,
                stderr@.len() as int,
            ),
{
    let marker = main_file_marker();
    match find_str(stderr, marker) {
        Some(i) => {
            let n = stderr.unicode_len();
            let tail = stderr.substring_char(i, n);
            proof {
                assert forall|j: int|
                    first_occurrence(stderr@, spec_main_file_marker(), j) implies j
                    == i as int by {
                    if j < i as int {
                        assert(occurs_at(stderr@, spec_main_file_marker(), j));
                    }
                }
            }
            Some(String::from_str(tail))
        },
        None => None,
    }
}

/// The extracted error text starts exactly at the marker: its first
/// characters are the marker itself.
pub proof fn lemma_error_starts_at_marker(stderr: Seq<char>, error: Seq<char>, i: int)
    requires
        first_occurrence(stderr, spec_main_file_marker(), i),
        error == stderr.subrange(i, stderr.len() as int),
    ensures
        spec_main_file_marker().len() <= error.len(),
        error.subrange(0, spec_main_file_marker().len() as int) == spec_main_file_marker(),
{
    let m = spec_main_file_marker().len() as int;
    assert(error.subrange(0, m) =~= stderr.subrange(i, i + m));
}

} // verus!
