//! Small verified helpers on strings and characters that the rest of the crate
//! builds on: conversion between strings and character vectors, concatenation,
//! suffix stripping and decimal parsing.

use vstd::prelude::*;

verus! {

/// `String::push` appends one character to the end of the string.
pub assume_specification[ String::push ](s: &mut String, ch: char)
    ensures
        final(s)@ == old(s)@.push(ch),
;

/// What `str::trim` returns for the given text: the text without its leading
/// and trailing Unicode white space.
pub uninterp spec fn trimmed(s: Seq<char>) -> Seq<char>;

/// `str::trim`: the result is named by [`trimmed`].
#[verifier::external_body]
pub(crate) fn trim_text(s: &str) -> (r: String)
    ensures
        r@ == trimmed(s@),
{
    s.trim().to_string()
}

/// The text of an optional string.
pub open spec fn optional_text(s: Option<String>) -> Option<Seq<char>> {
    match s {
        Some(t) => Some(t@),
        None => None,
    }
}

/// The characters of a string, in order.
pub fn chars_of(s: &str) -> (v: Vec<char>)
    ensures
        v@ == s@,
{
    let mut v: Vec<char> = Vec::new();
    for c in it: s.chars()
        invariant
            it.seq() == s@,
            v@ == it.seq().take(it.index()),
    {
        v.push(c);
    }
    v
}

/// The string made of the first `len` characters of `chars`.
pub fn string_of_prefix(chars: &Vec<char>, len: usize) -> (s: String)
    requires
        len <= chars.len(),
    ensures
        s@ == chars@.take(len as int),
{
    let mut s = String::new();
    let mut i: usize = 0;
    while i < len
        invariant
            i <= len <= chars.len(),
            s@ == chars@.take(i as int),
        decreases len - i,
    {
        s.push(chars[i]);
        assert(chars@.take(i + 1) == chars@.take(i as int).push(chars@[i as int]));
        i = i + 1;
    }
    s
}

/// The string made of the given characters.
pub fn string_of(chars: &Vec<char>) -> (s: String)
    ensures
        s@ == chars@,
{
    let s = string_of_prefix(chars, chars.len());
    assert(chars@.take(chars@.len() as int) == chars@);
    s
}

/// Whether two string slices hold the same characters.
pub fn str_eq(a: &str, b: &str) -> (r: bool)
    ensures
        r == (a@ == b@),
{
    a.to_owned() == b.to_owned()
}

/// `a` followed by `b`.
pub fn concat(a: &str, b: &str) -> (r: String)
    ensures
        r@ == a@ + b@,
{
    let mut r = String::from_str(a);
    r.append(b);
    r
}

/// `a`, `b` and `c` in a row.
pub fn concat3(a: &str, b: &str, c: &str) -> (r: String)
    ensures
        r@ == a@ + b@ + c@,
{
    let mut r = String::from_str(a);
    r.append(b);
    r.append(c);
    r
}

/// `s` without every trailing occurrence of `c`.
pub open spec fn spec_strip_trailing(s: Seq<char>, c: char) -> Seq<char>
    decreases s.len(),
{
    if s.len() > 0 && s.last() == c {
        spec_strip_trailing(s.drop_last(), c)
    } else {
        s
    }
}

/// The result of stripping is a prefix of the input, does not end in `c`, and
/// everything cut off was `c`.
pub proof fn lemma_strip_trailing(s: Seq<char>, c: char)
    ensures
        spec_strip_trailing(s, c).len() <= s.len(),
        spec_strip_trailing(s, c) == s.take(spec_strip_trailing(s, c).len() as int),
        spec_strip_trailing(s, c).len() > 0 ==> spec_strip_trailing(s, c).last() != c,
        forall|i: int| spec_strip_trailing(s, c).len() <= i < s.len() ==> s[i] == c,
    decreases s.len(),
{
    if s.len() > 0 && s.last() == c {
        lemma_strip_trailing(s.drop_last(), c);
        let r = spec_strip_trailing(s.drop_last(), c);
        assert(r == s.take(r.len() as int));
        assert forall|i: int| r.len() <= i < s.len() implies s[i] == c by {
            if i < s.len() - 1 {
                assert(s.drop_last()[i] == s[i]);
            }
        }
    } else {
        assert(s == s.take(s.len() as int));
    }
}

/// Removes every trailing `c` from `s`.
pub fn strip_trailing(s: &str, c: char) -> (r: String)
    ensures
        r@ == spec_strip_trailing(s@, c),
{
    let chars = chars_of(s);
    let mut len: usize = chars.len();
    assert(chars@.take(len as int) == chars@);
    while len > 0 && chars[len - 1] == c
        invariant
            len <= chars.len(),
            spec_strip_trailing(chars@, c) == spec_strip_trailing(chars@.take(len as int), c),
        decreases len,
    {
        proof {
            let t = chars@.take(len as int);
            assert(t.last() == c);
            assert(t.drop_last() == chars@.take(len - 1));
        }
        len = len - 1;
    }
    proof {
        assert(chars@.take(chars@.len() as int) == chars@);
        let t = chars@.take(len as int);
        if len > 0 {
            assert(t.last() == chars@[len - 1]);
        }
        assert(spec_strip_trailing(t, c) == t);
    }
    string_of_prefix(&chars, len)
}

/// Whether `c` is a decimal digit.
pub open spec fn is_digit(c: char) -> bool {
    '0' <= c && c <= '9'
}

/// The value of a decimal digit.
pub open spec fn digit_value(c: char) -> nat {
    (c as nat - '0' as nat) as nat
}

/// Whether every character of `s` is a decimal digit.
pub open spec fn all_digits(s: Seq<char>) -> bool {
    forall|i: int| 0 <= i < s.len() ==> is_digit(#[trigger] s[i])
}

/// The number that a sequence of decimal digits writes, most significant first.
pub open spec fn decimal_value(s: Seq<char>) -> nat
    decreases s.len(),
{
    if s.len() == 0 {
        0
    } else {
        decimal_value(s.drop_last()) * 10 + digit_value(s.last())
    }
}

/// What parsing `s` as an integer between `min` and `max` gives: an optional
/// sign (`+` always, `-` if `signed`), then one or more decimal digits and
/// nothing else, with the value inside the bounds.
pub open spec fn spec_parse_int(s: Seq<char>, signed: bool, min: int, max: int) -> Option<int> {
    let negative = signed && s.len() > 0 && s[0] == '-';
    let digits = if s.len() > 0 && (s[0] == '+' || negative) {
        s.skip(1)
    } else {
        s
    };
    let value = if negative {
        -(decimal_value(digits) as int)
    } else {
        decimal_value(digits) as int
    };
    if digits.len() > 0 && all_digits(digits) && min <= value <= max {
        Some(value)
    } else {
        None
    }
}

/// What `u8::from_str` gives for `s`.
pub open spec fn spec_parse_u8(s: Seq<char>) -> Option<u8> {
    match spec_parse_int(s, false, 0, 255) {
        Some(v) => Some(v as u8),
        None => None,
    }
}

/// What `i8::from_str` gives for `s`.
pub open spec fn spec_parse_i8(s: Seq<char>) -> Option<i8> {
    match spec_parse_int(s, true, -128, 127) {
        Some(v) => Some(v as i8),
        None => None,
    }
}

/// A longer digit string never writes a smaller number than its prefix.
pub proof fn lemma_decimal_value_prefix(s: Seq<char>, n: int)
    requires
        0 <= n <= s.len(),
    ensures
        decimal_value(s.take(n)) <= decimal_value(s),
    decreases s.len() - n,
{
    if n == s.len() {
        assert(s.take(n) == s);
    } else {
        lemma_decimal_value_prefix(s, n + 1);
        assert(s.take(n + 1).drop_last() == s.take(n));
    }
}

/// Reads the decimal digits `chars[from..]` as a number of at most `limit`.
fn parse_digits(chars: &Vec<char>, from: usize, limit: u16) -> (r: Option<u16>)
    requires
        from <= chars.len(),
        limit <= 1000,
    ensures
        r == (if from < chars.len() && all_digits(chars@.skip(from as int)) && decimal_value(
            chars@.skip(from as int),
        ) <= limit {
            Some(decimal_value(chars@.skip(from as int)) as u16)
        } else {
            None
        }),
{
    let ghost digits = chars@.skip(from as int);
    if from >= chars.len() {
        return None;
    }
    let mut value: u16 = 0;
    let mut i: usize = from;
    while i < chars.len()
        invariant
            from <= i <= chars.len(),
            digits == chars@.skip(from as int),
            limit <= 1000,
            value <= limit,
            all_digits(digits.take(i - from)),
            value == decimal_value(digits.take(i - from)),
        decreases chars.len() - i,
    {
        let c = chars[i];
        let ghost next = digits.take(i - from + 1);
        proof {
            assert(next.drop_last() == digits.take(i - from));
            assert(next.last() == c);
            assert(digits[i - from] == c);
        }
        if !(c >= '0' && c <= '9') {
            return None;
        }
        let d: u16 = (c as u32 - '0' as u32) as u16;
        let wide: u16 = value * 10 + d;
        if wide > limit {
            proof {
                lemma_decimal_value_prefix(digits, i - from + 1);
            }
            return None;
        }
        value = wide;
        i = i + 1;
    }
    proof {
        assert(digits.take(digits.len() as int) == digits);
    }
    Some(value)
}

/// Parses `s` as `u8::from_str` does.
pub fn parse_u8(s: &str) -> (r: Option<u8>)
    ensures
        r == spec_parse_u8(s@),
{
    let chars = chars_of(s);
    let from: usize = if chars.len() > 0 && chars[0] == '+' {
        1
    } else {
        0
    };
    proof {
        assert(chars@.skip(0) == chars@);
    }
    match parse_digits(&chars, from, 255) {
        Some(v) => Some(v as u8),
        None => None,
    }
}

/// Parses `s` as `i8::from_str` does.
pub fn parse_i8(s: &str) -> (r: Option<i8>)
    ensures
        r == spec_parse_i8(s@),
{
    let chars = chars_of(s);
    proof {
        assert(chars@.skip(0) == chars@);
    }
    if chars.len() > 0 && chars[0] == '-' {
        match parse_digits(&chars, 1, 128) {
            Some(v) => Some((0 - v as i16) as i8),
            None => None,
        }
    } else {
        let from: usize = if chars.len() > 0 && chars[0] == '+' {
            1
        } else {
            0
        };
        match parse_digits(&chars, from, 127) {
            Some(v) => Some(v as i8),
            None => None,
        }
    }
}

} // verus!
