//! Byte-level text scanning: substring search and the rate-limit
//! classification of error messages.
//!
//! A remote rate-limit rejection is conventionally detectable by an
//! embedded status marker — the digit string `429` — somewhere in the
//! error's textual representation. The scan works on the UTF-8 bytes of
//! the text; the marker is pure ASCII, so a byte-level match is exactly a
//! character-level one.

use vstd::prelude::*;
use vstd::string::StringSliceAdditionalSpecFns;

verus! {

/// Whether `pat` occurs in `hay` starting at position `i`.
pub open spec fn match_at(hay: Seq<u8>, pat: Seq<u8>, i: int) -> bool {
    &&& 0 <= i
    &&& i + pat.len() <= hay.len()
    &&& hay.subrange(i, i + pat.len()) == pat
}

/// Whether `pat` occurs anywhere in `hay`.
pub open spec fn contains_seq(hay: Seq<u8>, pat: Seq<u8>) -> bool {
    exists|i: int| match_at(hay, pat, i)
}

/// The first position at or after `from` where `pat` occurs in `hay`, if
/// any.
pub open spec fn find_from(hay: Seq<u8>, pat: Seq<u8>, from: int) -> Option<int>
    decreases hay.len() - from + 1,
{
    if from + pat.len() > hay.len() {
        None
    } else if match_at(hay, pat, from) {
        Some(from)
    } else {
        find_from(hay, pat, from + 1)
    }
}

/// A found position is a match, the first one at or after `from`.
pub proof fn lemma_find_from_is_first(hay: Seq<u8>, pat: Seq<u8>, from: int)
    ensures
        find_from(hay, pat, from) matches Some(i) ==> {
            &&& from <= i
            &&& match_at(hay, pat, i)
            &&& forall|j: int| from <= j < i ==> !match_at(hay, pat, j)
        },
        find_from(hay, pat, from) is None ==> forall|j: int|
            j >= from ==> !match_at(hay, pat, j),
    decreases hay.len() - from + 1,
{
    if !(from + pat.len() > hay.len()) && !match_at(hay, pat, from) {
        lemma_find_from_is_first(hay, pat, from + 1);
    }
}

/// Whether `pat` occurs in `hay` starting at `i`, checked byte by byte.
fn match_at_exec(hay: &[u8], pat: &[u8], i: usize) -> (r: bool)
    requires
        i + pat@.len() <= hay@.len(),
    ensures
        r == match_at(hay@, pat@, i as int),
{
    let hay_len: usize = hay.len();
    let pat_len: usize = pat.len();
    let mut j: usize = 0;
    while j < pat_len
        invariant
            0 <= j <= pat_len,
            pat_len == pat@.len(),
            hay_len == hay@.len(),
            i + pat@.len() <= hay@.len(),
            forall|k: int| 0 <= k < j ==> hay@[i + k] == pat@[k],
        decreases pat@.len() - j,
    {
        if hay[i + j] != pat[j] {
            proof {
                assert(hay@.subrange(i as int, i + pat@.len())[j as int] != pat@[j as int]);
            }
            return false;
        }
        j = j + 1;
    }
    proof {
        assert(hay@.subrange(i as int, i + pat@.len()) =~= pat@);
    }
    true
}

/// Finds the first occurrence of `pat` in `hay` at or after `from`.
pub fn find_sub(hay: &[u8], pat: &[u8], from: usize) -> (r: Option<usize>)
    ensures
        ({
            let f = find_from(hay@, pat@, from as int);
            match r {
                Some(i) => f == Some(i as int),
                None => f is None,
            }
        }),
{
    let hay_len: usize = hay.len();
    let pat_len: usize = pat.len();
    if from > hay_len || pat_len > hay_len - from {
        return None;
    }
    let mut i: usize = from;
    while i <= hay_len - pat_len
        invariant
            from <= i,
            hay_len == hay@.len(),
            pat_len == pat@.len(),
            pat_len <= hay_len,
            i <= hay_len - pat_len + 1,
            find_from(hay@, pat@, from as int) == find_from(hay@, pat@, i as int),
        decreases hay@.len() - i,
    {
        if match_at_exec(hay, pat, i) {
            return Some(i);
        }
        proof {
            if pat@.len() == 0 {
                assert(hay@.subrange(i as int, i as int) =~= pat@);
            }
            assert(pat@.len() >= 1);
        }
        i = i + 1;
    }
    None
}

/// Whether `hay` contains `pat` anywhere.
pub fn contains_sub(hay: &[u8], pat: &[u8]) -> (r: bool)
    ensures
        r == contains_seq(hay@, pat@),
{
    let found = find_sub(hay, pat, 0);
    proof {
        lemma_find_from_is_first(hay@, pat@, 0);
        if find_from(hay@, pat@, 0) is None {
            assert forall|i: int| !match_at(hay@, pat@, i) by {
                if i >= 0 {
                    assert(!match_at(hay@, pat@, i));
                }
            }
        }
    }
    found.is_some()
}

/// The status marker whose presence signals a remote rate-limit rejection:
/// the bytes of the digit string `429`.
pub open spec fn rate_limit_marker() -> Seq<u8> {
    seq!['4' as u8, '2' as u8, '9' as u8]
}

/// Whether an error's textual representation signals a rate-limit
/// rejection: the marker `429` occurs somewhere in its UTF-8 bytes.
pub fn is_rate_limit_message(msg: &str) -> (r: bool)
    ensures
        r == contains_seq(msg.spec_bytes(), rate_limit_marker()),
{
    let bytes = msg.as_bytes();
    let mut marker: Vec<u8> = Vec::new();
    marker.push(52);
    marker.push(50);
    marker.push(57);
    proof {
        assert(marker@ =~= rate_limit_marker());
    }
    contains_sub(bytes, marker.as_slice())
}

/// Classifies one failed attempt at the collaborator boundary: an error
/// whose message carries the rate-limit marker is the transient
/// [`crate::queue::TaskOutcome::RateLimited`]; any other failure is
/// terminal, keeping its message.
pub fn classify_failure(message: String) -> (t: crate::queue::TaskOutcome)
    ensures
        t is RateLimited <==> contains_seq(
            vstd::utf8::encode_utf8(message@),
            rate_limit_marker(),
        ),
        !(t is RateLimited) ==> t == crate::queue::TaskOutcome::Failed(message),
{
    if is_rate_limit_message(message.as_str()) {
        crate::queue::TaskOutcome::RateLimited
    } else {
        crate::queue::TaskOutcome::Failed(message)
    }
}

} // verus!
