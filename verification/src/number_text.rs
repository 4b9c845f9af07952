//! Decimal text of integers: rendering (what `to_string` gives for the
//! integer types) and parsing (what `str::parse::<u64>` accepts).

use vstd::prelude::*;
use crate::text::{str_chars, string_of_chars};

verus! {

/// The ASCII digit for `d` (0 to 9).
pub open spec fn digit_char(d: nat) -> char {
    if d == 0 { '0' }
    else if d == 1 { '1' }
    else if d == 2 { '2' }
    else if d == 3 { '3' }
    else if d == 4 { '4' }
    else if d == 5 { '5' }
    else if d == 6 { '6' }
    else if d == 7 { '7' }
    else if d == 8 { '8' }
    else { '9' }
}

/// The decimal digits of `n`, most significant first, without leading zeros.
pub open spec fn dec_digits(n: nat) -> Seq<char>
    decreases n,
{
    if n < 10 {
        seq![digit_char(n)]
    } else {
        dec_digits(n / 10).push(digit_char(n % 10))
    }
}

/// The decimal text of a signed integer: a minus sign before the digits of
/// its magnitude when it is negative.
pub open spec fn int_text(i: int) -> Seq<char> {
    if i < 0 {
        seq!['-'] + dec_digits((-i) as nat)
    } else {
        dec_digits(i as nat)
    }
}

/// Whether `c` is one of the ASCII digits `0` to `9`.
pub open spec fn is_ascii_digit(c: char) -> bool {
    '0' <= c <= '9'
}

/// The value of an ASCII digit.
pub open spec fn digit_value(c: char) -> nat {
    ((c as u32) - ('0' as u32)) as nat
}

/// Why a text is not a `u64`, as `core::num::IntErrorKind` tells it.
#[derive(Debug, Clone, Copy, PartialEq, Eq)]
pub enum IntErrorKind {
    Empty,
    InvalidDigit,
    PosOverflow,
}

/// Reads the digits of `s` after the value `acc` read so far, left to right;
/// the first character that is no digit, or the first digit that takes the
/// value past `u64::MAX`, ends the reading with an error.
pub open spec fn parse_digits(acc: nat, s: Seq<char>) -> Result<nat, IntErrorKind>
    decreases s.len(),
{
    if s.len() == 0 {
        Ok(acc)
    } else if !is_ascii_digit(s[0]) {
        Err(IntErrorKind::InvalidDigit)
    } else if acc * 10 + digit_value(s[0]) > u64::MAX {
        Err(IntErrorKind::PosOverflow)
    } else {
        parse_digits(acc * 10 + digit_value(s[0]), s.drop_first())
    }
}

/// What `str::parse::<u64>` returns for the text `s`: an optional `+`, then
/// one or more ASCII digits, at most `u64::MAX` in value.
pub open spec fn parse_u64_spec(s: Seq<char>) -> Result<u64, IntErrorKind> {
    if s.len() == 0 {
        Err(IntErrorKind::Empty)
    } else if s.len() == 1 && (s[0] == '+' || s[0] == '-') {
        Err(IntErrorKind::InvalidDigit)
    } else {
        let digits = if s[0] == '+' { s.drop_first() } else { s };
        match parse_digits(0, digits) {
            Ok(v) => Ok(v as u64),
            Err(e) => Err(e),
        }
    }
}

/// The text of a `ParseIntError` of the given kind, as its `Display` shows it.
pub open spec fn int_error_text(kind: IntErrorKind) -> Seq<char> {
    match kind {
        IntErrorKind::Empty => "cannot parse integer from empty string"@,
        IntErrorKind::InvalidDigit => "invalid digit found in string"@,
        IntErrorKind::PosOverflow => "number too large to fit in target type"@,
    }
}

fn digit_to_char(d: u64) -> (c: char)
    requires
        d < 10,
    ensures
        c == digit_char(d as nat),
{
    if d == 0 { '0' }
    else if d == 1 { '1' }
    else if d == 2 { '2' }
    else if d == 3 { '3' }
    else if d == 4 { '4' }
    else if d == 5 { '5' }
    else if d == 6 { '6' }
    else if d == 7 { '7' }
    else if d == 8 { '8' }
    else { '9' }
}

/// The decimal digits of `n` as characters.
pub fn u64_digits(n: u64) -> (v: Vec<char>)
    ensures
        v@ == dec_digits(n as nat),
{
    let mut m: u64 = n;
    let mut acc: Vec<char> = Vec::new();
    while m >= 10
        invariant
            dec_digits(n as nat) == dec_digits(m as nat) + acc@,
        decreases m,
    {
        let d = m % 10;
        let c = digit_to_char(d);
        proof {
            assert(dec_digits(m as nat) == dec_digits((m / 10) as nat).push(c));
            assert(dec_digits((m / 10) as nat).push(c) + acc@ =~= dec_digits((m / 10) as nat) + (
            seq![c] + acc@));
        }
        acc.insert(0, c);
        m = m / 10;
    }
    let c = digit_to_char(m);
    acc.insert(0, c);
    proof {
        assert(dec_digits(m as nat) == seq![c]);
    }
    acc
}

/// `n.to_string()` for a `u64`.
pub fn u64_to_string(n: u64) -> (s: String)
    ensures
        s@ == dec_digits(n as nat),
{
    let v = u64_digits(n);
    string_of_chars(v.as_slice())
}

/// `n.to_string()` for a `usize`.
pub fn usize_to_string(n: usize) -> (s: String)
    ensures
        s@ == dec_digits(n as nat),
{
    u64_to_string(n as u64)
}

/// `n.to_string()` for a `u32`.
pub fn u32_to_string(n: u32) -> (s: String)
    ensures
        s@ == dec_digits(n as nat),
{
    u64_to_string(n as u64)
}

/// `i.to_string()` for an `i64`.
pub fn i64_to_string(i: i64) -> (s: String)
    ensures
        s@ == int_text(i as int),
{
    if i < 0 {
        let magnitude: u64 = ((-(i + 1)) as u64) + 1;
        let digits = u64_digits(magnitude);
        let mut v: Vec<char> = Vec::new();
        v.push('-');
        let mut k: usize = 0;
        while k < digits.len()
            invariant
                k <= digits@.len(),
                v@ == seq!['-'] + digits@.subrange(0, k as int),
            decreases digits@.len() - k,
        {
            v.push(digits[k]);
            k = k + 1;
            assert(v@ =~= seq!['-'] + digits@.subrange(0, k as int));
        }
        assert(digits@.subrange(0, k as int) =~= digits@);
        string_of_chars(v.as_slice())
    } else {
        u64_to_string(i as u64)
    }
}

/// `i.to_string()` for an `i32`.
pub fn i32_to_string(i: i32) -> (s: String)
    ensures
        s@ == int_text(i as int),
{
    i64_to_string(i as i64)
}

proof fn lemma_parse_digits_step(acc: nat, s: Seq<char>, i: int)
    requires
        0 <= i < s.len(),
    ensures
        parse_digits(acc, s.subrange(i, s.len() as int)) == (if !is_ascii_digit(s[i]) {
            Err(IntErrorKind::InvalidDigit)
        } else if acc * 10 + digit_value(s[i]) > u64::MAX {
            Err(IntErrorKind::PosOverflow)
        } else {
            parse_digits(acc * 10 + digit_value(s[i]), s.subrange(i + 1, s.len() as int))
        }),
{
    let t = s.subrange(i, s.len() as int);
    assert(t.drop_first() =~= s.subrange(i + 1, s.len() as int));
}

fn char_digit_value(c: char) -> (r: Option<u64>)
    ensures
        r is Some <==> is_ascii_digit(c),
        r matches Some(d) ==> d == digit_value(c) && d < 10,
{
    if '0' <= c && c <= '9' {
        Some(((c as u32) - ('0' as u32)) as u64)
    } else {
        None
    }
}

/// `s.parse::<u64>()`, with the kind of the error where it fails.
pub fn parse_u64(s: &str) -> (r: Result<u64, IntErrorKind>)
    ensures
        r == parse_u64_spec(s@),
{
    let chars = str_chars(s);
    let n = chars.len();
    if n == 0 {
        return Err(IntErrorKind::Empty);
    }
    if n == 1 && (chars[0] == '+' || chars[0] == '-') {
        return Err(IntErrorKind::InvalidDigit);
    }
    let start: usize = if chars[0] == '+' { 1 } else { 0 };
    let ghost digits = if s@[0] == '+' { s@.drop_first() } else { s@ };
    assert(digits =~= chars@.subrange(start as int, n as int));
    assert(parse_u64_spec(s@) == match parse_digits(0, digits) {
        Ok(v) => Ok(v as u64),
        Err(e) => Err(e),
    });
    let mut acc: u64 = 0;
    let mut i: usize = start;
    while i < n
        invariant
            chars@ == s@,
            n == chars@.len(),
            start <= i <= n,
            parse_digits(0, digits) == parse_digits(acc as nat, chars@.subrange(i as int, n as int)),
            parse_u64_spec(s@) == match parse_digits(0, digits) {
                Ok(v) => Ok(v as u64),
                Err(e) => Err(e),
            },
        decreases n - i,
    {
        proof {
            lemma_parse_digits_step(acc as nat, chars@, i as int);
        }
        let d = match char_digit_value(chars[i]) {
            Some(d) => d,
            None => {
                return Err(IntErrorKind::InvalidDigit);
            },
        };
        if acc > (u64::MAX - d) / 10 {
            assert(acc * 10 + d > u64::MAX) by (nonlinear_arith)
                requires
                    acc > (u64::MAX - d) / 10,
                    d < 10,
            ;
            return Err(IntErrorKind::PosOverflow);
        }
        assert(acc * 10 + d <= u64::MAX) by (nonlinear_arith)
            requires
                acc <= (u64::MAX - d) / 10,
                d < 10,
        ;
        acc = acc * 10 + d;
        i = i + 1;
    }
    assert(chars@.subrange(n as int, n as int) =~= Seq::<char>::empty());
    Ok(acc)
}

proof fn lemma_parse_digits_push(acc: nat, s: Seq<char>, c: char)
    ensures
        parse_digits(acc, s.push(c)) == match parse_digits(acc, s) {
            Ok(v) => parse_digits(v, seq![c]),
            Err(e) => Err(e),
        },
    decreases s.len(),
{
    if s.len() == 0 {
        assert(s.push(c) =~= seq![c]);
    } else {
        assert(s.push(c).drop_first() =~= s.drop_first().push(c));
        if is_ascii_digit(s[0]) && acc * 10 + digit_value(s[0]) <= u64::MAX {
            lemma_parse_digits_push(acc * 10 + digit_value(s[0]), s.drop_first(), c);
        }
    }
}

proof fn lemma_dec_digits_are_digits(n: nat)
    ensures
        dec_digits(n).len() > 0,
        forall|i: int| 0 <= i < dec_digits(n).len() ==> is_ascii_digit(#[trigger] dec_digits(n)[i]),
    decreases n,
{
    if n >= 10 {
        lemma_dec_digits_are_digits(n / 10);
    }
}

proof fn lemma_parse_dec_digits(n: nat)
    requires
        n <= u64::MAX,
    ensures
        parse_digits(0, dec_digits(n)) matches Ok(v) && v == n,
    decreases n,
{
    let d = n % 10;
    assert(digit_value(digit_char(d)) == d && is_ascii_digit(digit_char(d)));
    assert(seq![digit_char(d)].drop_first() =~= Seq::<char>::empty());
    reveal_with_fuel(parse_digits, 2);
    if n < 10 {
    } else {
        lemma_parse_dec_digits(n / 10);
        lemma_parse_digits_push(0, dec_digits(n / 10), digit_char(d));
        assert((n / 10) * 10 + d == n);
    }
}

/// Reading back the decimal text of any `u64` gives the number itself:
/// `n.to_string().parse::<u64>() == Ok(n)`.
pub proof fn law_parse_u64_of_text(n: u64)
    ensures
        parse_u64_spec(dec_digits(n as nat)) matches Ok(v) && v == n,
{
    lemma_dec_digits_are_digits(n as nat);
    lemma_parse_dec_digits(n as nat);
    let s = dec_digits(n as nat);
    assert(is_ascii_digit(s[0]));
}

/// The text of a `ParseIntError` of the given kind.
pub fn int_error_message(kind: IntErrorKind) -> (s: String)
    ensures
        s@ == int_error_text(kind),
{
    match kind {
        IntErrorKind::Empty => "cannot parse integer from empty string".to_owned(),
        IntErrorKind::InvalidDigit => "invalid digit found in string".to_owned(),
        IntErrorKind::PosOverflow => "number too large to fit in target type".to_owned(),
    }
}

} // verus!
