//! The provenance filter: a document qualifies when its `creator` field
//! contains the configured token as a whole word, case-insensitively, and
//! some element of its `sources` array carries a `url`.
//!
//! The store evaluates this predicate server-side; the library states and
//! implements the same semantics so that runs can be modeled and the
//! aggregation strategy compared against the cursor strategy.
use vstd::prelude::*;
use vstd::string::StrSliceExecFns;

use crate::model::{DocView, SourceDoc};

verus! {

/// The character's code point, with ASCII upper-case letters folded to
/// lower case. Matching is case-insensitive in the ASCII range only, as a
/// case-insensitive match of an ASCII literal token is.
pub open spec fn lower_code(c: char) -> int {
    if 65 <= c as int && c as int <= 90 {
        c as int + 32
    } else {
        c as int
    }
}

/// Whether two characters are equal up to ASCII case.
pub open spec fn chars_eq_ci(a: char, b: char) -> bool {
    lower_code(a) == lower_code(b)
}

/// A word character: ASCII letter, digit, or underscore. Word boundaries
/// fall exactly between a word character and anything else (or the ends of
/// the text).
pub open spec fn is_word_char(c: char) -> bool {
    (97 <= lower_code(c) && lower_code(c) <= 122) || (48 <= c as int && c as int <= 57) || c as int
        == 95
}

/// The token occurs at position `i` of `text`, case-insensitively, with a
/// word boundary on each side.
pub open spec fn word_at(text: Seq<char>, i: int, token: Seq<char>) -> bool {
    &&& 0 <= i
    &&& i + token.len() <= text.len()
    &&& (forall|j: int| 0 <= j < token.len() ==> chars_eq_ci(text[i + j], token[j]))
    &&& (i == 0 || !is_word_char(text[i - 1]))
    &&& (i + token.len() == text.len() || !is_word_char(text[i + token.len()]))
}

/// The token occurs somewhere in `text` as a whole word, case-insensitively.
pub open spec fn contains_word_ci(text: Seq<char>, token: Seq<char>) -> bool {
    exists|i: int| word_at(text, i, token)
}

/// Some element of the document's `sources` array carries a `url`.
pub open spec fn spec_sources_url_exists(d: DocView) -> bool {
    &&& d.sources is Some
    &&& exists|i: int| 0 <= i < d.sources->0.len() && (#[trigger] d.sources->0[i]).url is Some
}

/// The migration filter: `creator` contains the token as a whole word,
/// case-insensitively, and `sources.url` exists.
pub open spec fn spec_matches_filter(d: DocView, token: Seq<char>) -> bool {
    &&& d.creator is Some
    &&& contains_word_ci(d.creator->0, token)
    &&& spec_sources_url_exists(d)
}

/// The folded code point, executably.
fn lower_code_exec(c: char) -> (r: u32)
    ensures
        r as int == lower_code(c),
{
    let x = c as u32;
    if 65 <= x && x <= 90 {
        x + 32
    } else {
        x
    }
}

/// Whether `c` is a word character, executably.
fn is_word_char_exec(c: char) -> (b: bool)
    ensures
        b == is_word_char(c),
{
    let l = lower_code_exec(c);
    let x = c as u32;
    (97 <= l && l <= 122) || (48 <= x && x <= 57) || x == 95
}

/// Whether the token stands at position `i` of `text` as a whole word.
fn word_match_at(text: &str, n: usize, i: usize, token: &str, m: usize) -> (b: bool)
    requires
        n == text@.len(),
        m == token@.len(),
        i + m <= n,
    ensures
        b == word_at(text@, i as int, token@),
{
    if i > 0 && is_word_char_exec(text.get_char(i - 1)) {
        return false;
    }
    if i + m < n && is_word_char_exec(text.get_char(i + m)) {
        return false;
    }
    let mut j: usize = 0;
    while j < m
        invariant
            n == text@.len(),
            m == token@.len(),
            i + m <= n,
            j <= m,
            forall|k: int| 0 <= k < j ==> chars_eq_ci(text@[i + k], token@[k]),
        decreases m - j,
    {
        if lower_code_exec(text.get_char(i + j)) != lower_code_exec(token.get_char(j)) {
            assert(!chars_eq_ci(text@[i + j], token@[j as int]));
            return false;
        }
        j += 1;
    }
    true
}

/// Whether `text` contains `token` as a whole word, case-insensitively.
/// A word token is never empty.
pub fn contains_word(text: &str, token: &str) -> (b: bool)
    requires
        token@.len() >= 1,
    ensures
        b == contains_word_ci(text@, token@),
{
    let n = text.unicode_len();
    let m = token.unicode_len();
    if m > n {
        assert(forall|k: int| !word_at(text@, k, token@));
        return false;
    }
    let mut i: usize = 0;
    while i <= n - m
        invariant
            1 <= m <= n,
            n == text@.len(),
            m == token@.len(),
            i <= n - m + 1,
            forall|k: int| 0 <= k < i ==> !word_at(text@, k, token@),
        decreases n - m + 1 - i,
    {
        if word_match_at(text, n, i, token, m) {
            assert(word_at(text@, i as int, token@));
            return true;
        }
        i += 1;
    }
    assert(forall|k: int| !word_at(text@, k, token@));
    false
}

/// Whether some element of the document's `sources` array carries a `url`.
pub fn sources_url_exists(d: &SourceDoc) -> (b: bool)
    ensures
        b == spec_sources_url_exists(d@),
{
    match &d.sources {
        None => false,
        Some(entries) => {
            let n = entries.len();
            let mut i: usize = 0;
            while i < n
                invariant
                    n == entries@.len(),
                    d.sources is Some,
                    d@.sources->0 == entries@.map_values(|e: crate::model::SourceEntry| e@),
                    forall|k: int| 0 <= k < i ==> (#[trigger] d@.sources->0[k]).url is None,
                decreases n - i,
            {
                if entries[i].url.is_some() {
                    assert(d@.sources->0[i as int].url is Some);
                    return true;
                }
                i += 1;
            }
            false
        },
    }
}

/// Evaluates the migration filter against one document, with the semantics
/// the store applies server-side.
pub fn matches_filter(d: &SourceDoc, token: &str) -> (b: bool)
    requires
        token@.len() >= 1,
    ensures
        b == spec_matches_filter(d@, token@),
{
    match &d.creator {
        None => false,
        Some(c) => contains_word(c.as_str(), token) && sources_url_exists(d),
    }
}

} // verus!
