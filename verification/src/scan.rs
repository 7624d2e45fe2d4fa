//! Substring scanning over character sequences: occurrence predicates, the
//! first-occurrence index, and verified search routines.

use vstd::prelude::*;
use vstd::string::StrSliceExecFns;

verus! {

/// `pat` occurs in `text` starting at index `i`.
pub open spec fn match_at(text: Seq<char>, pat: Seq<char>, i: int) -> bool {
    &&& 0 <= i
    &&& i + pat.len() <= text.len()
    &&& text.subrange(i, i + pat.len() as int) == pat
}

/// Some occurrence of `pat` in `text` begins at or after `from`.
pub open spec fn has_match_from(text: Seq<char>, pat: Seq<char>, from: int) -> bool {
    exists|i: int| from <= i && match_at(text, pat, i)
}

/// `i` is the first index at or after `from` where `pat` occurs in `text`.
pub open spec fn is_first_match_from(text: Seq<char>, pat: Seq<char>, from: int, i: int) -> bool {
    &&& from <= i
    &&& match_at(text, pat, i)
    &&& forall|j: int| from <= j < i ==> !match_at(text, pat, j)
}

/// The first index at or after `from` where `pat` occurs in `text`;
/// meaningful only when such an occurrence exists.
pub open spec fn first_match_from(text: Seq<char>, pat: Seq<char>, from: int) -> int {
    choose|i: int| is_first_match_from(text, pat, from, i)
}

/// Wherever some occurrence exists, a first occurrence exists, and
/// `first_match_from` denotes it.
pub proof fn lemma_first_match_exists(text: Seq<char>, pat: Seq<char>, from: int)
    requires
        0 <= from,
        has_match_from(text, pat, from),
    ensures
        is_first_match_from(text, pat, from, first_match_from(text, pat, from)),
    decreases text.len() + 1 - from,
{
    let w = choose|i: int| from <= i && match_at(text, pat, i);
    assert(from <= w && match_at(text, pat, w));
    if match_at(text, pat, from) {
        assert(is_first_match_from(text, pat, from, from));
    } else {
        assert(w != from);
        assert(from + 1 <= w && match_at(text, pat, w));
        assert(has_match_from(text, pat, from + 1));
        lemma_first_match_exists(text, pat, from + 1);
        let f = first_match_from(text, pat, from + 1);
        assert(is_first_match_from(text, pat, from, f)) by {
            assert(forall|j: int| from <= j < f ==> !match_at(text, pat, j)) by {
                assert forall|j: int| from <= j < f implies !match_at(text, pat, j) by {
                    if j != from {
                        assert(from + 1 <= j < f);
                    }
                }
            }
        }
    }
    assert(exists|i: int| is_first_match_from(text, pat, from, i));
}

/// The first occurrence index is unique.
pub proof fn lemma_first_match_unique(text: Seq<char>, pat: Seq<char>, from: int, i1: int, i2: int)
    requires
        is_first_match_from(text, pat, from, i1),
        is_first_match_from(text, pat, from, i2),
    ensures
        i1 == i2,
{
    if i1 < i2 {
        assert(!match_at(text, pat, i1));
    }
    if i2 < i1 {
        assert(!match_at(text, pat, i2));
    }
}

/// Whether `pat` occurs in `text` starting exactly at index `i`.
fn str_match_at(text: &str, pat: &str, i: usize, tlen: usize, plen: usize) -> (b: bool)
    requires
        tlen == text@.len(),
        plen == pat@.len(),
        i + plen <= tlen,
    ensures
        b == match_at(text@, pat@, i as int),
{
    let mut k: usize = 0;
    while k < plen
        invariant
            tlen == text@.len(),
            plen == pat@.len(),
            i + plen <= tlen,
            0 <= k <= plen,
            forall|m: int| 0 <= m < k ==> text@[i + m] == pat@[m],
        decreases plen - k,
    {
        let tc = text.get_char(i + k);
        let pc = pat.get_char(k);
        if tc != pc {
            proof {
                if match_at(text@, pat@, i as int) {
                    assert(text@.subrange(i as int, i + plen as int) == pat@);
                    assert(text@.subrange(i as int, i + plen as int)[k as int] == text@[i + k]);
                }
            }
            return false;
        }
        k += 1;
    }
    proof {
        assert(text@.subrange(i as int, i + plen as int) =~= pat@);
    }
    true
}

/// Finds the first occurrence of `pat` in `text` at or after index `from`.
pub fn find_from(text: &str, pat: &str, from: usize) -> (r: Option<usize>)
    ensures
        match r {
            Option::Some(i) => is_first_match_from(text@, pat@, from as int, i as int),
            Option::None => !has_match_from(text@, pat@, from as int),
        },
{
    let tlen = text.unicode_len();
    let plen = pat.unicode_len();
    if plen > tlen {
        proof {
            assert forall|i: int| from <= i implies !match_at(text@, pat@, i) by {}
        }
        return Option::None;
    }
    let last = tlen - plen;
    if from > last {
        proof {
            assert forall|i: int| from <= i implies !match_at(text@, pat@, i) by {}
        }
        return Option::None;
    }
    let mut i: usize = from;
    loop
        invariant
            tlen == text@.len(),
            plen == pat@.len(),
            plen <= tlen,
            last == tlen - plen,
            from <= i <= last,
            forall|j: int| from <= j < i ==> !match_at(text@, pat@, j),
        decreases last - i,
    {
        if str_match_at(text, pat, i, tlen, plen) {
            return Option::Some(i);
        }
        if i == last {
            proof {
                assert forall|j: int| from <= j implies !match_at(text@, pat@, j) by {
                    if j <= last as int {
                        assert(!match_at(text@, pat@, j));
                    }
                }
            }
            return Option::None;
        }
        i += 1;
    }
}

/// Whether `pat` occurs anywhere in `text`.
pub fn contains_pattern(text: &str, pat: &str) -> (b: bool)
    ensures
        b == has_match_from(text@, pat@, 0),
{
    match find_from(text, pat, 0) {
        Option::Some(i) => {
            proof {
                assert(match_at(text@, pat@, i as int));
            }
            true
        }
        Option::None => false,
    }
}

} // verus!
