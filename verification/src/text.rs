//! Character-level text utilities shared by the parsers: conversion
//! between `&str` and `Vec<char>`, whitespace, decimal integer
//! literals, and substring search.

use vstd::prelude::*;

verus! {

/// The whitespace characters on which fields are separated and around
/// which a timestamp body is trimmed: the Unicode white-space set that
/// `char::is_whitespace` accepts.
pub open spec fn is_space(c: char) -> bool {
    ||| c == ' ' || c == '\t' || c == '\n' || c == '\u{b}' || c == '\u{c}' || c == '\r'
    ||| c == '\u{85}' || c == '\u{a0}' || c == '\u{1680}'
    ||| '\u{2000}' <= c && c <= '\u{200a}'
    ||| c == '\u{2028}' || c == '\u{2029}' || c == '\u{202f}' || c == '\u{205f}' || c == '\u{3000}'
}

/// Executable mirror of [`is_space`].
pub fn space_char(c: char) -> (r: bool)
    ensures
        r == is_space(c),
{
    c == ' ' || c == '\t' || c == '\n' || c == '\u{b}' || c == '\u{c}' || c == '\r'
        || c == '\u{85}' || c == '\u{a0}' || c == '\u{1680}'
        || ('\u{2000}' <= c && c <= '\u{200a}')
        || c == '\u{2028}' || c == '\u{2029}' || c == '\u{202f}' || c == '\u{205f}'
        || c == '\u{3000}'
}

/// The characters of a string slice, in order.
pub fn str_to_chars(s: &str) -> (r: Vec<char>)
    ensures
        r@ == s@,
{
    let mut r: Vec<char> = Vec::new();
    for c in it: s.chars()
        invariant
            r@ == it.seq().take(it.index() as int),
            it.seq() == s@,
    {
        r.push(c);
    }
    proof {
        assert(r@ =~= s@);
    }
    r
}

/// Relies on `core::iter::Iterator::collect` for `String`: collecting
/// characters yields the string with exactly those characters.
#[verifier::external_body]
pub fn chars_to_string(v: &Vec<char>) -> (r: String)
    ensures
        r@ == v@,
{
    v.iter().collect()
}

/// A decimal digit.
pub open spec fn is_digit(c: char) -> bool {
    '0' <= c && c <= '9'
}

/// Numeric value of a decimal digit.
pub open spec fn digit_val(c: char) -> int {
    c as int - '0' as int
}

/// Value of a sequence of decimal digits, most significant first.
pub open spec fn dec_value(s: Seq<char>) -> int
    decreases s.len(),
{
    if s.len() == 0 {
        0
    } else {
        dec_value(s.drop_last()) * 10 + digit_val(s.last())
    }
}

/// Whether every character of `s` is a decimal digit.
pub open spec fn all_digits(s: Seq<char>) -> bool {
    forall|i: int| 0 <= i < s.len() ==> is_digit(#[trigger] s[i])
}

/// Whether `s` is a decimal integer literal as `i64`/`i32` parsing
/// accepts it: an optional sign followed by at least one digit.
pub open spec fn is_int_literal(s: Seq<char>) -> bool {
    if s.len() == 0 {
        false
    } else if s[0] == '+' || s[0] == '-' {
        s.len() > 1 && all_digits(s.skip(1))
    } else {
        all_digits(s)
    }
}

/// Signed value of a decimal integer literal.
pub open spec fn int_literal_value(s: Seq<char>) -> int {
    if s.len() > 0 && s[0] == '-' {
        -dec_value(s.skip(1))
    } else if s.len() > 0 && s[0] == '+' {
        dec_value(s.skip(1))
    } else {
        dec_value(s)
    }
}

/// Value of the digits read so far never decreases as digits are
/// appended, and stays within the bound that the scanning loop checks.
proof fn lemma_dec_value_nonneg(s: Seq<char>)
    requires
        all_digits(s),
    ensures
        dec_value(s) >= 0,
    decreases s.len(),
{
    if s.len() > 0 {
        assert(all_digits(s.drop_last()));
        lemma_dec_value_nonneg(s.drop_last());
    }
}

/// Parses the digit run `s[from..]` as a nonnegative number, bounded by
/// `bound`; fails if a non-digit stands there, nothing stands there, or
/// the value exceeds `bound`.
///
/// `bound` is at most `i64::MAX as u64 + 1` so the accumulator cannot
/// overflow.
fn parse_digits(s: &Vec<char>, from: usize, bound: u64) -> (r: Option<u64>)
    requires
        from <= s@.len(),
        bound <= 0x8000_0000_0000_0000u64,
    ensures
        r is Some <==> s@.len() > from && all_digits(s@.skip(from as int)) && dec_value(
            s@.skip(from as int),
        ) <= bound,
        r is Some ==> r->Some_0 == dec_value(s@.skip(from as int)),
{
    if from >= s.len() {
        return None;
    }
    let ghost whole = s@.skip(from as int);
    let mut acc: u64 = 0;
    let mut i: usize = from;
    while i < s.len()
        invariant
            from <= i <= s@.len(),
            from < s@.len(),
            bound <= 0x8000_0000_0000_0000u64,
            whole == s@.skip(from as int),
            all_digits(s@.subrange(from as int, i as int)),
            acc == dec_value(s@.subrange(from as int, i as int)),
            acc <= bound,
        decreases s@.len() - i,
    {
        let c = s[i];
        if !('0' <= c && c <= '9') {
            proof {
                assert(s@.skip(from as int)[i - from] == s@[i as int]);
            }
            return None;
        }
        let d: u64 = (c as u32 as u64) - ('0' as u32 as u64);
        proof {
            assert(s@.subrange(from as int, i + 1int).drop_last() =~= s@.subrange(
                from as int,
                i as int,
            ));
            assert(s@.subrange(from as int, i + 1int).last() == s@[i as int]);
        }
        let q = bound / 10;
        if acc > q || (acc == q && d > bound % 10) {
            // The value of the whole run can only be larger still.
            proof {
                assert(acc * 10 + d > bound);
                lemma_dec_value_extend(s@, from as int, i + 1int, bound as int);
            }
            return None;
        }
        proof {
            assert(acc * 10 + d <= bound);
        }
        acc = acc * 10 + d;
        i = i + 1;
    }
    proof {
        assert(s@.subrange(from as int, s@.len() as int) =~= s@.skip(from as int));
    }
    Some(acc)
}

/// Appending digits never shrinks the value: if the digits of
/// `s[from..k]` already exceed `bound`, so do those of the whole run
/// `s[from..]`, provided that run is all digits.
proof fn lemma_dec_value_extend(s: Seq<char>, from: int, k: int, bound: int)
    requires
        0 <= from <= k <= s.len(),
        bound >= 0,
        dec_value(s.subrange(from, k)) > bound,
    ensures
        all_digits(s.skip(from)) ==> dec_value(s.skip(from)) > bound,
    decreases s.len() - k,
{
    if all_digits(s.skip(from)) {
        if k == s.len() {
            assert(s.subrange(from, k) =~= s.skip(from));
        } else {
            let next = s.subrange(from, k + 1);
            assert(next.drop_last() =~= s.subrange(from, k));
            assert(next.last() == s[k]);
            assert(is_digit(s[k])) by {
                assert(s.skip(from)[k - from] == s[k]);
            }
            assert(dec_value(next) == dec_value(s.subrange(from, k)) * 10 + digit_val(s[k]));
            lemma_dec_value_extend(s, from, k + 1, bound);
        }
    }
}

/// The decimal digit character for `d` (0 through 9).
pub open spec fn digit_char(d: int) -> char {
    if d == 0 {
        '0'
    } else if d == 1 {
        '1'
    } else if d == 2 {
        '2'
    } else if d == 3 {
        '3'
    } else if d == 4 {
        '4'
    } else if d == 5 {
        '5'
    } else if d == 6 {
        '6'
    } else if d == 7 {
        '7'
    } else if d == 8 {
        '8'
    } else {
        '9'
    }
}

/// The decimal rendering of a nonnegative number, most significant
/// digit first, without leading zeros.
pub open spec fn dec_str(n: int) -> Seq<char>
    decreases n,
{
    if n < 10 {
        seq![digit_char(n)]
    } else {
        dec_str(n / 10).push(digit_char(n % 10))
    }
}

/// The decimal digits of `m`, most significant first.
pub fn u64_dec(m: u64) -> (r: Vec<char>)
    ensures
        r@.len() >= 1,
        all_digits(r@),
        dec_value(r@) == m,
        r@ == dec_str(m as int),
    decreases m,
{
    let d: u8 = (m % 10) as u8;
    let c: char = (48u8 + d) as char;
    proof {
        assert(is_digit(c));
        assert(digit_val(c) == m as int % 10);
        assert(c == digit_char(m as int % 10));
    }
    if m < 10 {
        let mut r: Vec<char> = Vec::new();
        r.push(c);
        proof {
            assert(r@.drop_last() =~= Seq::<char>::empty());
            reveal_with_fuel(dec_value, 2);
            assert(r@ =~= seq![digit_char(m as int)]);
        }
        r
    } else {
        let mut r = u64_dec(m / 10);
        let ghost prefix = r@;
        r.push(c);
        proof {
            assert(r@.drop_last() =~= prefix);
            assert(dec_value(r@) == dec_value(prefix) * 10 + digit_val(c));
            assert((m / 10) * 10 + m % 10 == m);
        }
        r
    }
}

/// Renders a number in decimal.
pub fn dec_string(n: usize) -> (r: String)
    ensures
        r@ == dec_str(n as int),
{
    let digits = u64_dec(n as u64);
    chars_to_string(&digits)
}

/// Parses `s[from..]` as a signed 64-bit decimal integer, exactly as
/// `str::parse::<i64>` does: optional `+`/`-` sign, then at least one
/// digit, value within the `i64` range.
pub fn parse_i64_from(s: &Vec<char>, from: usize) -> (r: Option<i64>)
    requires
        from <= s@.len(),
    ensures
        r is Some <==> is_int_literal(s@.skip(from as int)) && i64::MIN <= int_literal_value(
            s@.skip(from as int),
        ) <= i64::MAX,
        r is Some ==> r->Some_0 == int_literal_value(s@.skip(from as int)),
{
    let ghost lit = s@.skip(from as int);
    if from >= s.len() {
        return None;
    }
    let c0 = s[from];
    proof {
        assert(lit[0] == s@[from as int]);
        assert(lit.skip(1) =~= s@.skip(from + 1int));
    }
    if c0 == '-' {
        match parse_digits(s, from + 1, 0x8000_0000_0000_0000u64) {
            Some(m) => {
                proof {
                    lemma_dec_value_nonneg(s@.skip(from + 1int));
                }
                if m == 0x8000_0000_0000_0000u64 {
                    Some(i64::MIN)
                } else {
                    Some(-(m as i64))
                }
            },
            None => None,
        }
    } else if c0 == '+' {
        match parse_digits(s, from + 1, 0x7fff_ffff_ffff_ffffu64) {
            Some(m) => Some(m as i64),
            None => None,
        }
    } else {
        match parse_digits(s, from, 0x7fff_ffff_ffff_ffffu64) {
            Some(m) => Some(m as i64),
            None => None,
        }
    }
}

/// Parses a whole character vector as a signed 64-bit decimal integer.
pub fn parse_i64_chars(s: &Vec<char>) -> (r: Option<i64>)
    ensures
        r is Some <==> is_int_literal(s@) && i64::MIN <= int_literal_value(s@) <= i64::MAX,
        r is Some ==> r->Some_0 == int_literal_value(s@),
{
    proof {
        assert(s@.skip(0) =~= s@);
    }
    parse_i64_from(s, 0)
}

} // verus!
