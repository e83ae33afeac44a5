//! Building the textual output: string growth and decimal rendering.
//!
//! Scores are fixed-point integers (see `structs::SCORE_SCALE`); they are
//! rendered with a sign, the integer part, and exactly six fractional
//! digits, so `-1_234_567` units print as `-1.234567`.

use vstd::prelude::*;

verus! {

/// Relies on `String::push_str`: appends the slice's characters to the
/// end of the string and changes nothing else.
#[verifier::external_body]
pub fn append_str(s: &mut String, t: &str)
    ensures
        final(s)@ == old(s)@ + t@,
{
    s.push_str(t);
}

/// Relies on `String::push`: appends the one character to the end of the
/// string and changes nothing else.
#[verifier::external_body]
pub fn append_char(s: &mut String, c: char)
    ensures
        final(s)@ == old(s)@.push(c),
{
    s.push(c);
}

/// The decimal digit character for a value below ten.
pub open spec fn digit_char(d: int) -> char {
    if d == 0 { '0' }
    else if d == 1 { '1' }
    else if d == 2 { '2' }
    else if d == 3 { '3' }
    else if d == 4 { '4' }
    else if d == 5 { '5' }
    else if d == 6 { '6' }
    else if d == 7 { '7' }
    else if d == 8 { '8' }
    else { '9' }
}

/// The decimal digits of a non-negative number, most significant first,
/// without leading zeros (a single `'0'` for zero).
pub open spec fn dec_chars(n: int) -> Seq<char>
    recommends
        n >= 0,
    decreases n,
{
    if n < 10 {
        seq![digit_char(n)]
    } else {
        dec_chars(n / 10).push(digit_char(n % 10))
    }
}

/// Ten to the `k`-th power (one for `k <= 0`).
pub open spec fn pow10(k: int) -> int
    decreases k,
{
    if k <= 0 { 1 } else { 10 * pow10(k - 1) }
}

/// The six fractional digits of a fixed-point magnitude below one score
/// point, most significant first, zero-padded.
pub open spec fn frac_chars(f: int) -> Seq<char>
    recommends
        0 <= f < 1_000_000,
{
    Seq::new(6, |i: int| digit_char((f / pow10(5 - i)) % 10))
}

/// How a fixed-point magnitude is rendered: integer part, a point, six
/// fractional digits.
pub open spec fn magnitude_chars(m: int) -> Seq<char>
    recommends
        m >= 0,
{
    dec_chars(m / 1_000_000) + seq!['.'] + frac_chars(m % 1_000_000)
}

/// How a fixed-point score is rendered: a minus sign for negative values,
/// then the magnitude.
pub open spec fn score_chars(v: int) -> Seq<char> {
    if v < 0 {
        seq!['-'] + magnitude_chars(-v)
    } else {
        magnitude_chars(v)
    }
}

/// The character of one decimal digit.
pub fn digit_to_char(d: u64) -> (c: char)
    requires
        d < 10,
    ensures
        c == digit_char(d as int),
{
    match d {
        0 => '0',
        1 => '1',
        2 => '2',
        3 => '3',
        4 => '4',
        5 => '5',
        6 => '6',
        7 => '7',
        8 => '8',
        _ => '9',
    }
}

/// Appends the decimal digits of `n` to `s`.
pub fn push_dec(s: &mut String, n: u64)
    ensures
        final(s)@ == old(s)@ + dec_chars(n as int),
    decreases n,
{
    if n < 10 {
        append_char(s, digit_to_char(n));
        assert(old(s)@.push(digit_char(n as int)) =~= old(s)@ + dec_chars(n as int));
    } else {
        push_dec(s, n / 10);
        let d = n % 10;
        append_char(s, digit_to_char(d));
        assert((old(s)@ + dec_chars(n as int / 10)).push(digit_char(n as int % 10))
            =~= old(s)@ + dec_chars(n as int));
    }
}

/// Appends the six zero-padded fractional digits of `f` to `s`.
pub fn push_frac(s: &mut String, f: u64)
    requires
        f < 1_000_000,
    ensures
        final(s)@ == old(s)@ + frac_chars(f as int),
{
    proof {
        assert(pow10(0) == 1);
        assert(pow10(1) == 10);
        assert(pow10(2) == 100);
        assert(pow10(3) == 1000);
        assert(pow10(4) == 10000);
        assert(pow10(5) == 100000);
    }
    append_char(s, digit_to_char((f / 100000) % 10));
    append_char(s, digit_to_char((f / 10000) % 10));
    append_char(s, digit_to_char((f / 1000) % 10));
    append_char(s, digit_to_char((f / 100) % 10));
    append_char(s, digit_to_char((f / 10) % 10));
    append_char(s, digit_to_char(f % 10));
    assert(s@ =~= old(s)@ + frac_chars(f as int));
}

/// Appends the rendering of a fixed-point score to `s`.
pub fn push_score(s: &mut String, v: i64)
    ensures
        final(s)@ == old(s)@ + score_chars(v as int),
{
    let mag: u64 = if v < 0 {
        (-(v as i128)) as u64
    } else {
        v as u64
    };
    if v < 0 {
        append_char(s, '-');
        assert(s@ =~= old(s)@ + seq!['-']);
    }
    let ghost mid = s@;
    push_dec(s, mag / 1_000_000);
    append_char(s, '.');
    push_frac(s, mag % 1_000_000);
    proof {
        assert(s@ =~= mid + magnitude_chars(mag as int));
        if v < 0 {
            assert(mid + magnitude_chars(mag as int)
                =~= old(s)@ + (seq!['-'] + magnitude_chars(mag as int)));
        }
    }
}

} // verus!
