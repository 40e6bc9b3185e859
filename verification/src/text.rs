//! Text policy: community name validation and the denylist content filter.
//!
//! The filter is applied in two ways, on purpose: a disallowed word in a
//! post's title blocks the translation outright, while a disallowed word in
//! a body is replaced and translation goes on.

use vstd::prelude::*;

verus! {

/// Number of characters a community name may have at most.
pub const MAX_COMMUNITY_NAME_LEN: usize = 20;

/// Number of characters a community name must have at least.
pub const MIN_COMMUNITY_NAME_LEN: usize = 3;

/// True when `c` may appear in a community name: lower-case ASCII letters,
/// digits and the underscore.
pub open spec fn is_name_char(c: char) -> bool {
    ('a' <= c && c <= 'z') || ('0' <= c && c <= '9') || c == '_'
}

/// True when `s` is acceptable as the name of a newly created community.
pub open spec fn spec_valid_community_name(s: Seq<char>) -> bool {
    MIN_COMMUNITY_NAME_LEN <= s.len() <= MAX_COMMUNITY_NAME_LEN
        && forall|i: int| 0 <= i < s.len() ==> is_name_char(#[trigger] s[i])
}

/// Community names are restricted to a small alphabet so they can appear
/// verbatim in actor identifier URLs.
pub fn is_valid_community_name(s: &str) -> (r: bool)
    ensures
        r == spec_valid_community_name(s@),
{
    let n = s.unicode_len();
    if n < MIN_COMMUNITY_NAME_LEN || n > MAX_COMMUNITY_NAME_LEN {
        return false;
    }
    let mut i: usize = 0;
    while i < n
        invariant
            n == s@.len(),
            0 <= i <= n,
            forall|j: int| 0 <= j < i ==> is_name_char(#[trigger] s@[j]),
        decreases n - i,
    {
        let c = s.get_char(i);
        if !(('a' <= c && c <= 'z') || ('0' <= c && c <= '9') || c == '_') {
            return false;
        }
        i = i + 1;
    }
    true
}

/// Character-for-character equality of two string slices.
pub fn str_eq(a: &str, b: &str) -> (r: bool)
    ensures
        r == (a@ == b@),
{
    let n = a.unicode_len();
    if n != b.unicode_len() {
        assert(a@.len() != b@.len());
        return false;
    }
    let mut i: usize = 0;
    while i < n
        invariant
            n == a@.len(),
            n == b@.len(),
            0 <= i <= n,
            forall|t: int| 0 <= t < i ==> a@[t] == b@[t],
        decreases n - i,
    {
        if a.get_char(i) != b.get_char(i) {
            assert(a@ != b@);
            return false;
        }
        i = i + 1;
    }
    assert(a@ =~= b@);
    true
}

/// True when the word `w` occurs in `text` starting at position `i`.
pub open spec fn matches_at(text: Seq<char>, w: Seq<char>, i: int) -> bool {
    0 <= i && i + w.len() <= text.len() && text.subrange(i, i + w.len() as int) == w
}

/// True when the word `w` occurs somewhere in `text`.
pub open spec fn contains_word(text: Seq<char>, w: Seq<char>) -> bool {
    exists|i: int| matches_at(text, w, i)
}

/// True when any word of `words` occurs in `text`.
pub open spec fn contains_any(text: Seq<char>, words: Seq<Seq<char>>) -> bool {
    exists|k: int| 0 <= k < words.len() && contains_word(text, words[k])
}

/// True when `w` occurs in `text` at position `i`; `i + w@.len()` must not
/// pass the end of `text`.
fn word_matches_at(text: &str, w: &str, i: usize, text_len: usize, w_len: usize) -> (r: bool)
    requires
        text_len == text@.len(),
        w_len == w@.len(),
        i + w_len <= text_len,
    ensures
        r == matches_at(text@, w@, i as int),
{
    let mut j: usize = 0;
    while j < w_len
        invariant
            text_len == text@.len(),
            w_len == w@.len(),
            i + w_len <= text_len,
            0 <= j <= w_len,
            forall|t: int| 0 <= t < j ==> text@[i + t] == w@[t],
        decreases w_len - j,
    {
        if text.get_char(i + j) != w.get_char(j) {
            assert(text@.subrange(i as int, i + w@.len() as int) != w@) by {
                assert(text@.subrange(i as int, i + w@.len() as int)[j as int] != w@[j as int]);
            }
            return false;
        }
        j = j + 1;
    }
    assert(text@.subrange(i as int, i + w@.len() as int) =~= w@);
    true
}

/// True when the word `w` occurs anywhere in `text`.
pub fn str_contains_word(text: &str, w: &str) -> (r: bool)
    ensures
        r == contains_word(text@, w@),
{
    let text_len = text.unicode_len();
    let w_len = w.unicode_len();
    if w_len > text_len {
        assert(forall|i: int| !matches_at(text@, w@, i));
        return false;
    }
    if w_len == 0 {
        assert(matches_at(text@, w@, 0)) by {
            assert(text@.subrange(0, 0) =~= w@);
        }
        return true;
    }
    let mut i: usize = 0;
    while i <= text_len - w_len
        invariant
            text_len == text@.len(),
            w_len == w@.len(),
            1 <= w_len <= text_len,
            0 <= i <= text_len - w_len + 1,
            forall|t: int| 0 <= t < i ==> !matches_at(text@, w@, t),
        decreases text_len - w_len + 1 - i,
    {
        if word_matches_at(text, w, i, text_len, w_len) {
            return true;
        }
        i = i + 1;
    }
    assert(forall|t: int| !matches_at(text@, w@, t));
    false
}

/// True when any word of the denylist occurs in `text`. A denylist entry
/// that is empty is in every string, so an empty entry makes every text
/// disallowed; denylists are expected to hold non-empty words.
pub fn contains_any_word(text: &str, words: &Vec<String>) -> (r: bool)
    ensures
        r == contains_any(text@, words.deep_view()),
{
    let mut k: usize = 0;
    while k < words.len()
        invariant
            0 <= k <= words@.len(),
            forall|t: int| 0 <= t < k ==> !contains_word(text@, words.deep_view()[t]),
        decreases words@.len() - k,
    {
        if str_contains_word(text, words[k].as_str()) {
            assert(contains_word(text@, words.deep_view()[k as int]));
            return true;
        }
        k = k + 1;
    }
    false
}


/// The index of the first non-empty word of `words`, at or after position
/// `k` of the list, that occurs in `text` at position `i`; `None` when no
/// such word does.
pub open spec fn match_index_at(text: Seq<char>, words: Seq<Seq<char>>, i: int, k: int) -> Option<
    int,
>
    decreases words.len() - k,
{
    if k < 0 || k >= words.len() {
        None
    } else if words[k].len() > 0 && matches_at(text, words[k], i) {
        Some(k)
    } else {
        match_index_at(text, words, i, k + 1)
    }
}

/// `text` from position `i` on, with every occurrence of a word of `words`
/// replaced by `repl`. The scan is left to right; at each position the
/// first listed word that matches wins, and the scan resumes after it.
pub open spec fn censor_from(text: Seq<char>, words: Seq<Seq<char>>, repl: Seq<char>, i: int) -> Seq<
    char,
>
    decreases text.len() - i,
{
    if i < 0 || i >= text.len() {
        Seq::empty()
    } else {
        match match_index_at(text, words, i, 0) {
            Some(k) => {
                let len: int = if words[k].len() > 0 {
                    words[k].len() as int
                } else {
                    1
                };
                let step: int = if i + len <= text.len() {
                    len
                } else {
                    text.len() - i
                };
                repl + censor_from(text, words, repl, i + step)
            },
            None => seq![text[i]] + censor_from(text, words, repl, i + 1),
        }
    }
}

/// The whole of `text` with every occurrence of a word of `words` replaced
/// by `repl`.
pub open spec fn censor(text: Seq<char>, words: Seq<Seq<char>>, repl: Seq<char>) -> Seq<char> {
    censor_from(text, words, repl, 0)
}

/// The first listed non-empty word of `words` that occurs in `text` at
/// position `i`, or `None`.
fn first_match_at(text: &str, words: &Vec<String>, i: usize, text_len: usize) -> (r: Option<usize>)
    requires
        text_len == text@.len(),
        i < text_len,
    ensures
        match r {
            Some(k) => {
                &&& k < words@.len()
                &&& match_index_at(text@, words.deep_view(), i as int, 0) == Some(k as int)
                &&& words@[k as int]@.len() > 0
                &&& i + words@[k as int]@.len() <= text_len
            },
            None => match_index_at(text@, words.deep_view(), i as int, 0) is None,
        },
{
    let ghost dw = words.deep_view();
    let mut k: usize = 0;
    while k < words.len()
        invariant
            dw == words.deep_view(),
            text_len == text@.len(),
            i < text_len,
            0 <= k <= words@.len(),
            match_index_at(text@, dw, i as int, 0) == match_index_at(text@, dw, i as int, k as int),
        decreases words@.len() - k,
    {
        let w = &words[k];
        let w_len = w.as_str().unicode_len();
        if w_len > 0 && w_len <= text_len - i {
            if word_matches_at(text, w.as_str(), i, text_len, w_len) {
                assert(match_index_at(text@, dw, i as int, k as int) == Some(k as int));
                return Some(k);
            }
        }
        assert(!(dw[k as int].len() > 0 && matches_at(text@, dw[k as int], i as int)));
        assert(match_index_at(text@, dw, i as int, k as int) == match_index_at(
            text@,
            dw,
            i as int,
            k as int + 1,
        ));
        k = k + 1;
    }
    None
}

/// `text` with every occurrence of a denylist word replaced by `repl`,
/// scanning left to right, the first listed word winning at each position.
pub fn remove_slurs(text: &str, words: &Vec<String>, repl: &str) -> (r: String)
    ensures
        r@ == censor(text@, words.deep_view(), repl@),
{
    let ghost dw = words.deep_view();
    let text_len = text.unicode_len();
    let mut out = String::new();
    let mut i: usize = 0;
    while i < text_len
        invariant
            dw == words.deep_view(),
            text_len == text@.len(),
            0 <= i <= text_len,
            out@ + censor_from(text@, dw, repl@, i as int) == censor(text@, dw, repl@),
        decreases text_len - i,
    {
        let ghost out_pre = out@;
        match first_match_at(text, words, i, text_len) {
            Some(k) => {
                let w_len = words[k].as_str().unicode_len();
                out.append(repl);
                proof {
                    assert(censor_from(text@, dw, repl@, i as int) == repl@ + censor_from(
                        text@,
                        dw,
                        repl@,
                        i + w_len,
                    ));
                    assert(out_pre + (repl@ + censor_from(text@, dw, repl@, i + w_len)) =~= (out_pre
                        + repl@) + censor_from(text@, dw, repl@, i + w_len));
                }
                i = i + w_len;
            },
            None => {
                let c = text.substring_char(i, i + 1);
                out.append(c);
                proof {
                    assert(c@ =~= seq![text@[i as int]]);
                    assert(censor_from(text@, dw, repl@, i as int) == seq![text@[i as int]]
                        + censor_from(text@, dw, repl@, i + 1));
                    assert(out_pre + (c@ + censor_from(text@, dw, repl@, i + 1)) =~= (out_pre + c@)
                        + censor_from(text@, dw, repl@, i + 1));
                }
                i = i + 1;
            },
        }
    }
    assert(out@ =~= out@ + censor_from(text@, dw, repl@, text_len as int));
    out
}

} // verus!
