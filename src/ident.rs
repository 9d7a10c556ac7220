//! Stable keys for cities, derived from their display names.

use vstd::prelude::*;
use crate::text::{lower_of, lowercase, push_char};

verus! {

/// One character of a key: spaces and hyphens become underscores, and the
/// accented Latin vowels (grave, acute, circumflex, diaeresis) and the
/// cedilla c become their plain ASCII letter. Every other character is kept.
pub open spec fn fold_char(c: char) -> char {
    if c == ' ' || c == '-' {
        '_'
    } else if c == '\u{e0}' || c == '\u{e1}' || c == '\u{e2}' || c == '\u{e4}' {
        'a'
    } else if c == '\u{e8}' || c == '\u{e9}' || c == '\u{ea}' || c == '\u{eb}' {
        'e'
    } else if c == '\u{ec}' || c == '\u{ed}' || c == '\u{ee}' || c == '\u{ef}' {
        'i'
    } else if c == '\u{f2}' || c == '\u{f3}' || c == '\u{f4}' || c == '\u{f6}' {
        'o'
    } else if c == '\u{f9}' || c == '\u{fa}' || c == '\u{fb}' || c == '\u{fc}' {
        'u'
    } else if c == '\u{e7}' {
        'c'
    } else {
        c
    }
}

/// A lower-case name folded character by character into key form.
pub open spec fn key_form(s: Seq<char>) -> Seq<char> {
    s.map_values(|c: char| fold_char(c))
}

/// The key of the city with display name `name`.
pub open spec fn city_key(name: Seq<char>) -> Seq<char> {
    key_form(lower_of(name))
}

fn fold(c: char) -> (r: char)
    ensures
        r == fold_char(c),
{
    if c == ' ' || c == '-' {
        '_'
    } else if c == '\u{e0}' || c == '\u{e1}' || c == '\u{e2}' || c == '\u{e4}' {
        'a'
    } else if c == '\u{e8}' || c == '\u{e9}' || c == '\u{ea}' || c == '\u{eb}' {
        'e'
    } else if c == '\u{ec}' || c == '\u{ed}' || c == '\u{ee}' || c == '\u{ef}' {
        'i'
    } else if c == '\u{f2}' || c == '\u{f3}' || c == '\u{f4}' || c == '\u{f6}' {
        'o'
    } else if c == '\u{f9}' || c == '\u{fa}' || c == '\u{fb}' || c == '\u{fc}' {
        'u'
    } else if c == '\u{e7}' {
        'c'
    } else {
        c
    }
}

/// Folds an already lower-case name into key form.
pub fn fold_key(s: &str) -> (r: String)
    ensures
        r@ == key_form(s@),
{
    let n = s.unicode_len();
    let mut out = String::new();
    let mut i: usize = 0;
    while i < n
        invariant
            n == s@.len(),
            i <= n,
            out@ == key_form(s@.subrange(0, i as int)),
        decreases n - i,
    {
        let c = s.get_char(i);
        push_char(&mut out, fold(c));
        assert(s@.subrange(0, i + 1) == s@.subrange(0, i as int).push(c));
        assert(out@ =~= key_form(s@.subrange(0, i + 1)));
        i = i + 1;
    }
    assert(s@.subrange(0, n as int) == s@);
    out
}

/// The key of a city: its name in lower case, folded into key form.
pub fn derive_key(name: &str) -> (r: String)
    ensures
        r@ == city_key(name@),
{
    let lower = lowercase(name);
    fold_key(lower.as_str())
}

/// Deriving a key is deterministic: equal names always give the same key.
pub proof fn lemma_city_key_deterministic(a: Seq<char>, b: Seq<char>)
    requires
        a == b,
    ensures
        city_key(a) == city_key(b),
{
}

/// Folding is idempotent: a key that is already in key form is left as it is.
pub proof fn lemma_key_form_idempotent(s: Seq<char>)
    ensures
        key_form(key_form(s)) == key_form(s),
{
    assert(key_form(key_form(s)) =~= key_form(s));
}

} // verus!
