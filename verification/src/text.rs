//! Case-sensitive substring search over the characters of a string.

use vstd::prelude::*;

verus! {

/// `pat` occurs in `text` starting at character position `i`.
pub open spec fn matches_at(text: Seq<char>, pat: Seq<char>, i: int) -> bool {
    &&& 0 <= i
    &&& i + pat.len() <= text.len()
    &&& text.subrange(i, i + pat.len()) == pat
}

/// `pat` occurs somewhere in `text` as a contiguous run of characters.
pub open spec fn contains_seq(text: Seq<char>, pat: Seq<char>) -> bool {
    exists|i: int| matches_at(text, pat, i)
}

/// Compares `pat` character by character against `text` at position `i`.
fn is_match_at(text: &str, pat: &str, i: usize, text_len: usize, pat_len: usize) -> (r: bool)
    requires
        text_len == text@.len(),
        pat_len == pat@.len(),
        i + pat_len <= text_len,
    ensures
        r == matches_at(text@, pat@, i as int),
{
    let mut j: usize = 0;
    while j < pat_len
        invariant
            j <= pat_len,
            text_len == text@.len(),
            pat_len == pat@.len(),
            i + pat_len <= text_len,
            forall|k: int| 0 <= k < j ==> text@[i + k] == pat@[k],
        decreases pat_len - j,
    {
        if text.get_char(i + j) != pat.get_char(j) {
            assert(text@.subrange(i as int, i + pat@.len())[j as int] != pat@[j as int]);
            return false;
        }
        j += 1;
    }
    assert(text@.subrange(i as int, i + pat@.len()) =~= pat@);
    true
}

/// Whether `pat` occurs in `text` as a contiguous, case-sensitive substring
/// of characters. An empty `pat` is contained in every `text`.
pub fn contains_substring(text: &str, pat: &str) -> (r: bool)
    ensures
        r == contains_seq(text@, pat@),
{
    let text_len = text.unicode_len();
    let pat_len = pat.unicode_len();
    if pat_len > text_len {
        return false;
    }
    if pat_len == 0 {
        proof {
            assert(text@.subrange(0, 0) =~= pat@);
            assert(matches_at(text@, pat@, 0));
        }
        return true;
    }
    let mut i: usize = 0;
    while i <= text_len - pat_len
        invariant
            text_len == text@.len(),
            pat_len == pat@.len(),
            1 <= pat_len <= text_len,
            i <= text_len - pat_len + 1,
            forall|k: int| 0 <= k < i ==> !matches_at(text@, pat@, k),
        decreases text_len - pat_len + 1 - i,
    {
        if is_match_at(text, pat, i, text_len, pat_len) {
            assert(contains_seq(text@, pat@));
            return true;
        }
        i += 1;
    }
    false
}

} // verus!
