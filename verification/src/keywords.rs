//! The keyword scan: an ASCII case-insensitive substring search over the
//! captured page text.
//!
//! The page text and the keywords are handled as bytes; ASCII letters are
//! folded to lower case on both sides, so a keyword matches whatever the
//! casing of the page. A site reports a keyword as newly detected only
//! until its latch flips; the latch itself lives in the site's state.

use vstd::prelude::*;

verus! {

/// The byte with ASCII upper-case letters folded to lower case.
pub open spec fn fold_case(b: u8) -> u8 {
    if 65 <= b <= 90 {
        (b + 32) as u8
    } else {
        b
    }
}

/// Whether `pat` occurs in `text` at position `i`, ignoring ASCII case.
pub open spec fn matches_at(text: Seq<u8>, pat: Seq<u8>, i: int) -> bool {
    &&& 0 <= i
    &&& i + pat.len() <= text.len()
    &&& forall|j: int| 0 <= j < pat.len() ==> fold_case(text[i + j]) == fold_case(pat[j])
}

/// Whether `pat` occurs somewhere in `text`, ignoring ASCII case. The
/// empty pattern occurs in every text.
pub open spec fn contains_keyword(text: Seq<u8>, pat: Seq<u8>) -> bool {
    exists|i: int| matches_at(text, pat, i)
}

/// Folds one byte's ASCII case.
fn fold_byte(b: u8) -> (r: u8)
    ensures
        r == fold_case(b),
{
    if 65 <= b && b <= 90 {
        b + 32
    } else {
        b
    }
}

/// Whether `pat` occurs in `text` at position `i`, ignoring ASCII case.
fn matches_prefix_at(text: &Vec<u8>, pat: &Vec<u8>, i: usize) -> (r: bool)
    requires
        i + pat@.len() <= text@.len(),
    ensures
        r == matches_at(text@, pat@, i as int),
{
    let text_len: usize = text.len();
    let mut j: usize = 0;
    while j < pat.len()
        invariant
            j <= pat@.len(),
            i + pat@.len() <= text@.len(),
            text_len == text@.len(),
            forall|t: int| 0 <= t < j ==> fold_case(text@[i + t]) == fold_case(pat@[t]),
        decreases pat@.len() - j,
    {
        if fold_byte(text[i + j]) != fold_byte(pat[j]) {
            return false;
        }
        j = j + 1;
    }
    true
}

/// Whether `pat` occurs anywhere in `text`, ignoring ASCII case.
pub fn text_contains(text: &Vec<u8>, pat: &Vec<u8>) -> (r: bool)
    ensures
        r == contains_keyword(text@, pat@),
{
    if pat.len() > text.len() {
        return false;
    }
    let last_start: usize = text.len() - pat.len();
    let mut i: usize = 0;
    loop
        invariant
            pat@.len() <= text@.len(),
            last_start == text@.len() - pat@.len(),
            0 <= i <= last_start,
            forall|t: int| 0 <= t < i ==> !matches_at(text@, pat@, t),
        ensures
            forall|t: int| 0 <= t <= last_start ==> !matches_at(text@, pat@, t),
        decreases last_start - i,
    {
        if matches_prefix_at(text, pat, i) {
            return true;
        }
        if i == last_start {
            break;
        }
        i = i + 1;
    }
    proof {
        assert forall|t: int| !matches_at(text@, pat@, t) by {
            if matches_at(text@, pat@, t) {
                assert(0 <= t <= last_start);
            }
        }
    }
    false
}

/// Whether any of the keywords occurs in the page text, ignoring ASCII
/// case.
pub fn scan_keywords(text: &Vec<u8>, keywords: &Vec<Vec<u8>>) -> (r: bool)
    ensures
        r == exists|k: int| 0 <= k < keywords@.len() && contains_keyword(text@, keywords@[k]@),
{
    let mut k: usize = 0;
    while k < keywords.len()
        invariant
            k <= keywords@.len(),
            forall|t: int| 0 <= t < k ==> !contains_keyword(text@, keywords@[t]@),
        decreases keywords@.len() - k,
    {
        if text_contains(text, &keywords[k]) {
            return true;
        }
        k = k + 1;
    }
    false
}

} // verus!
