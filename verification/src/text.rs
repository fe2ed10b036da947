//! Text handling shared by the file-name rules: conversion between strings and
//! character vectors, lower-casing, and prefix, suffix and substring tests.

use vstd::prelude::*;

verus! {

/// The lower-case form of a text, as the standard library computes it
/// (Unicode lower-casing, which is not a character-by-character map).
pub uninterp spec fn lowercase(text: Seq<char>) -> Seq<char>;

/// `str::to_lowercase` returns the lower-case form of its argument. The
/// result depends on the argument alone; it is known here only by name.
pub assume_specification[ str::to_lowercase ](s: &str) -> (lowered: String)
    ensures
        lowered@ == lowercase(s@),
;

/// `String::push` appends one character to the end of the string.
pub assume_specification[ String::push ](s: &mut String, c: char)
    ensures
        final(s)@ == old(s)@.push(c),
;

/// Whether a character is white space, as the standard library decides it
/// (the Unicode property `White_Space`).
pub uninterp spec fn is_blank(c: char) -> bool;

/// `char::is_whitespace` tells whether the character has the Unicode
/// property `White_Space`. The result depends on the character alone; it is
/// known here only by name.
pub assume_specification[ char::is_whitespace ](c: char) -> (blank: bool)
    ensures
        blank == is_blank(c),
;

/// Whether `needle` occurs in `text` starting at position `at`.
pub open spec fn occurs_at(text: Seq<char>, needle: Seq<char>, at: int) -> bool {
    &&& 0 <= at
    &&& at + needle.len() <= text.len()
    &&& text.subrange(at, at + needle.len()) == needle
}

/// Whether `needle` occurs somewhere in `text`.
pub open spec fn occurs_in(text: Seq<char>, needle: Seq<char>) -> bool {
    exists|at: int| occurs_at(text, needle, at)
}

/// `text` with every hyphen removed.
pub open spec fn without_hyphens(text: Seq<char>) -> Seq<char> {
    text.filter(|c: char| c != '-')
}

/// Whether the stretch of `text` from `from` up to `to` is what is left of
/// it without its leading and trailing white space: only white space lies
/// before and after the stretch, and it neither begins nor ends with white
/// space.
pub open spec fn is_trim_range(text: Seq<char>, from: int, to: int) -> bool {
    &&& 0 <= from <= to <= text.len()
    &&& forall|k: int| 0 <= k < from ==> is_blank(#[trigger] text[k])
    &&& forall|k: int| to <= k < text.len() ==> is_blank(#[trigger] text[k])
    &&& from < to ==> !is_blank(text[from]) && !is_blank(text[to - 1])
}

/// Whether `inner` is `text` without its leading and trailing white space.
pub open spec fn is_trimmed(inner: Seq<char>, text: Seq<char>) -> bool {
    exists|from: int, to: int| #[trigger]
        is_trim_range(text, from, to) && inner == text.subrange(from, to)
}

/// A text has one trimmed form: any two texts that are `text` without its
/// leading and trailing white space are the same.
pub proof fn lemma_trimmed_is_unique(first: Seq<char>, second: Seq<char>, text: Seq<char>)
    requires
        is_trimmed(first, text),
        is_trimmed(second, text),
    ensures
        first == second,
{
    let (f1, t1) = choose|from: int, to: int| #[trigger]
        is_trim_range(text, from, to) && first == text.subrange(from, to);
    let (f2, t2) = choose|from: int, to: int| #[trigger]
        is_trim_range(text, from, to) && second == text.subrange(from, to);
    if f1 < t1 {
        assert(!is_blank(text[f1]) && !is_blank(text[t1 - 1]));
        assert(f2 <= f1 < t2);
        assert(!is_blank(text[f2]) && !is_blank(text[t2 - 1]));
        assert(f1 == f2 && t1 == t2);
    } else if f2 < t2 {
        assert(!is_blank(text[f2]));
        assert(false);
    } else {
        assert(text.subrange(f1, t1) =~= text.subrange(f2, t2));
    }
}

/// The characters of `s`, in order.
pub fn chars_of(s: &str) -> (chars: Vec<char>)
    ensures
        chars@ == s@,
{
    let mut chars: Vec<char> = Vec::new();
    for c in it: s.chars()
        invariant
            chars@ == it.seq().take(it.index() as int),
            it.seq() == s@,
    {
        chars.push(c);
    }
    chars
}

/// The string made of `chars`, in order.
pub fn string_of(chars: &Vec<char>) -> (s: String)
    ensures
        s@ == chars@,
{
    let mut s = String::new();
    let mut i: usize = 0;
    while i < chars.len()
        invariant
            i <= chars.len(),
            s@ == chars@.take(i as int),
        decreases chars.len() - i,
    {
        s.push(chars[i]);
        i += 1;
    }
    s
}

/// The lower-case form of `s` as a character vector.
pub fn lowered_chars(s: &str) -> (chars: Vec<char>)
    ensures
        chars@ == lowercase(s@),
{
    let lowered = s.to_lowercase();
    chars_of(lowered.as_str())
}

/// Whether `text` holds `needle` at position `at`.
fn matches_at(text: &Vec<char>, needle: &Vec<char>, at: usize) -> (found: bool)
    requires
        at + needle.len() <= text.len(),
    ensures
        found == occurs_at(text@, needle@, at as int),
{
    let mut k: usize = 0;
    while k < needle.len()
        invariant
            k <= needle.len(),
            at + needle.len() <= text.len(),
            forall|j: int| 0 <= j < k ==> text@[at + j] == needle@[j],
        decreases needle.len() - k,
    {
        if text[at + k] != needle[k] {
            proof {
                let window = text@.subrange(at as int, at + needle.len());
                assert(window[k as int] == text@[at + k]);
            }
            return false;
        }
        k += 1;
    }
    proof {
        assert(text@.subrange(at as int, at + needle.len()) =~= needle@);
    }
    true
}

/// Whether `text` begins with `prefix`.
pub fn starts_with(text: &Vec<char>, prefix: &str) -> (found: bool)
    ensures
        found == prefix@.is_prefix_of(text@),
{
    let needle = chars_of(prefix);
    if needle.len() > text.len() {
        return false;
    }
    matches_at(text, &needle, 0)
}

/// Whether `text` ends with `suffix`.
pub fn ends_with(text: &Vec<char>, suffix: &str) -> (found: bool)
    ensures
        found == suffix@.is_suffix_of(text@),
{
    let needle = chars_of(suffix);
    if needle.len() > text.len() {
        return false;
    }
    matches_at(text, &needle, text.len() - needle.len())
}

/// Whether `needle` occurs somewhere in `text`.
pub fn contains(text: &Vec<char>, needle: &str) -> (found: bool)
    ensures
        found == occurs_in(text@, needle@),
{
    let pattern = chars_of(needle);
    if pattern.len() > text.len() {
        return false;
    }
    if pattern.len() == 0 {
        proof {
            assert(text@.subrange(0, 0) =~= needle@);
            assert(occurs_at(text@, needle@, 0));
        }
        return true;
    }
    let limit: usize = text.len() - pattern.len() + 1;
    let mut at: usize = 0;
    while at < limit
        invariant
            at <= limit,
            limit == text.len() - pattern.len() + 1,
            pattern@ == needle@,
            forall|j: int| 0 <= j < at ==> !occurs_at(text@, needle@, j),
        decreases limit - at,
    {
        if matches_at(text, &pattern, at) {
            return true;
        }
        at += 1;
    }
    false
}

/// Whether `text` is exactly `other`.
pub fn equals(text: &Vec<char>, other: &str) -> (same: bool)
    ensures
        same == (text@ == other@),
{
    let needle = chars_of(other);
    if needle.len() != text.len() {
        return false;
    }
    let found = matches_at(text, &needle, 0);
    proof {
        assert(text@.subrange(0, text@.len() as int) =~= text@);
    }
    found
}

/// `text` with every hyphen removed.
pub fn strip_hyphens(text: &Vec<char>) -> (stripped: Vec<char>)
    ensures
        stripped@ == without_hyphens(text@),
{
    let mut stripped: Vec<char> = Vec::new();
    let mut i: usize = 0;
    while i < text.len()
        invariant
            i <= text.len(),
            stripped@ == without_hyphens(text@.take(i as int)),
        decreases text.len() - i,
    {
        proof {
            assert(text@.take(i + 1) =~= text@.take(i as int).push(text@[i as int]));
            text@.take(i as int).lemma_filter_push(text@[i as int], |c: char| c != '-');
        }
        if text[i] != '-' {
            stripped.push(text[i]);
        }
        i += 1;
    }
    proof {
        assert(text@.take(text@.len() as int) =~= text@);
    }
    stripped
}

/// `text` without its leading and trailing white space.
pub fn trim(text: &Vec<char>) -> (inner: Vec<char>)
    ensures
        is_trimmed(inner@, text@),
{
    let mut from: usize = 0;
    while from < text.len() && text[from].is_whitespace()
        invariant
            from <= text.len(),
            forall|k: int| 0 <= k < from ==> is_blank(#[trigger] text@[k]),
        decreases text.len() - from,
    {
        from += 1;
    }
    let mut to: usize = text.len();
    while to > from && text[to - 1].is_whitespace()
        invariant
            from <= to <= text.len(),
            forall|k: int| to <= k < text.len() ==> is_blank(#[trigger] text@[k]),
        decreases to,
    {
        to -= 1;
    }
    let mut inner: Vec<char> = Vec::new();
    let mut i: usize = from;
    while i < to
        invariant
            from <= i <= to <= text.len(),
            inner@ == text@.subrange(from as int, i as int),
        decreases to - i,
    {
        inner.push(text[i]);
        proof {
            assert(inner@ =~= text@.subrange(from as int, i + 1));
        }
        i += 1;
    }
    proof {
        assert(is_trim_range(text@, from as int, to as int));
    }
    inner
}

} // verus!
