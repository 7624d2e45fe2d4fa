//! The token extractor: pulls a labeled value out of an HTML body.
//!
//! A pattern is a pair of delimiters. Extraction takes the text strictly
//! between the first occurrence of the prefix and the nearest following
//! occurrence of the suffix; the first candidate wins, and later candidates
//! are never disambiguated. Extraction is read-only over the body.

use vstd::prelude::*;
use vstd::string::StrSliceExecFns;
use crate::errors::{AuthError, TokenPattern};
use crate::scan::{
    match_at, has_match_from, is_first_match_from, first_match_from, find_from,
    lemma_first_match_exists, lemma_first_match_unique,
};

verus! {

/// What extraction returns on `body` for the pattern delimited by `prefix`
/// and `suffix`: the text between the first occurrence of `prefix` and the
/// first occurrence of `suffix` after it, if both occur.
pub open spec fn spec_extract(body: Seq<char>, prefix: Seq<char>, suffix: Seq<char>) -> Option<
    Seq<char>,
> {
    if has_match_from(body, prefix, 0) {
        let cap_start = first_match_from(body, prefix, 0) + prefix.len();
        if has_match_from(body, suffix, cap_start) {
            Option::Some(body.subrange(cap_start, first_match_from(body, suffix, cap_start)))
        } else {
            Option::None
        }
    } else {
        Option::None
    }
}

/// Extraction is a pure function of the body and the pattern: any two
/// results drawn from the same body with the same delimiters coincide, so
/// extracting twice yields the same value, and the body is never changed.
pub proof fn lemma_extract_deterministic(
    body: Seq<char>,
    prefix: Seq<char>,
    suffix: Seq<char>,
    r1: Option<Seq<char>>,
    r2: Option<Seq<char>>,
)
    requires
        r1 == spec_extract(body, prefix, suffix),
        r2 == spec_extract(body, prefix, suffix),
    ensures
        r1 == r2,
{
}

/// Extracts the value delimited by `prefix` and `suffix` from `body`, or
/// fails with an extraction error labeled `pattern` when either delimiter
/// is absent.
pub fn extract_between(body: &str, prefix: &str, suffix: &str, pattern: TokenPattern) -> (r: Result<
    String,
    AuthError,
>)
    ensures
        match r {
            Result::Ok(token) => spec_extract(body@, prefix@, suffix@) == Option::Some(token@),
            Result::Err(e) => spec_extract(body@, prefix@, suffix@) is None && e == (
            AuthError::Extraction { pattern }),
        },
{
    let tlen = body.unicode_len();
    let plen = prefix.unicode_len();
    match find_from(body, prefix, 0) {
        Option::None => Result::Err(AuthError::Extraction { pattern }),
        Option::Some(p) => {
            proof {
                assert(match_at(body@, prefix@, p as int));
                assert(has_match_from(body@, prefix@, 0));
                lemma_first_match_exists(body@, prefix@, 0);
                lemma_first_match_unique(
                    body@,
                    prefix@,
                    0,
                    p as int,
                    first_match_from(body@, prefix@, 0),
                );
            }
            proof {
                // the occurrence bounds p + plen by tlen, so the sum fits
                assert(p + plen <= tlen);
            }
            let cap_start = p + plen;
            match find_from(body, suffix, cap_start) {
                Option::None => Result::Err(AuthError::Extraction { pattern }),
                Option::Some(j) => {
                    proof {
                        assert(match_at(body@, suffix@, j as int));
                        assert(has_match_from(body@, suffix@, cap_start as int));
                        lemma_first_match_exists(body@, suffix@, cap_start as int);
                        lemma_first_match_unique(
                            body@,
                            suffix@,
                            cap_start as int,
                            j as int,
                            first_match_from(body@, suffix@, cap_start as int),
                        );
                    }
                    let token = body.substring_char(cap_start, j).to_owned();
                    Result::Ok(token)
                }
            }
        }
    }
}

} // verus!
