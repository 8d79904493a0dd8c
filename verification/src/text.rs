//! Character-level helpers over `str` and `String`, and the decimal
//! notation of integers as std's `Display` writes it and std's
//! `from_str_radix(.., 10)` reads it.

use vstd::prelude::*;

verus! {

/// Equality of two string slices, as std's `PartialEq for str` computes it.
#[verifier::external_body]
pub(crate) fn str_eq(a: &str, b: &str) -> (res: bool)
    ensures
        res == (a@ == b@),
{
    a == b
}

/// Appends one character, as std's `String::push` does.
#[verifier::external_body]
pub(crate) fn string_push(s: &mut String, c: char)
    ensures
        final(s)@ == old(s)@.push(c),
{
    s.push(c)
}

/// Appends a string slice, as std's `String::push_str` does.
#[verifier::external_body]
pub(crate) fn string_push_str(s: &mut String, t: &str)
    ensures
        final(s)@ == old(s)@ + t@,
{
    s.push_str(t)
}

/// The character of decimal digit `d`.
pub open spec fn digit_char(d: nat) -> char {
    (48 + d) as char
}

/// Whether `c` is one of `0`..=`9`.
pub open spec fn is_digit(c: char) -> bool {
    48 <= c as int <= 57
}

/// The value of a decimal digit character.
pub open spec fn digit_value(c: char) -> nat {
    (c as int - 48) as nat
}

/// The decimal notation of `n`, without sign or leading zeros.
pub open spec fn decimal(n: nat) -> Seq<char>
    decreases n,
{
    if n < 10 {
        seq![digit_char(n)]
    } else {
        decimal(n / 10).push(digit_char(n % 10))
    }
}

/// The decimal notation of a signed number: a `-` before the digits of
/// its magnitude when it is negative.
pub open spec fn signed_decimal(v: int) -> Seq<char> {
    if v < 0 {
        seq!['-'] + decimal((-v) as nat)
    } else {
        decimal(v as nat)
    }
}

/// The text std writes for a boolean.
pub open spec fn bool_text(b: bool) -> Seq<char> {
    if b {
        seq!['t', 'r', 'u', 'e']
    } else {
        seq!['f', 'a', 'l', 's', 'e']
    }
}

/// Why a decimal number could not be read, as std's `IntErrorKind`
/// names it.
#[derive(Clone, Copy, Debug, PartialEq, Eq, Structural)]
pub enum IntErrorKind {
    /// The text is empty.
    Empty,
    /// A character is not a digit (a lone sign counts as one).
    InvalidDigit,
    /// The number is larger than the target type holds.
    PosOverflow,
}

/// Reading the digits `d` from left to right, with `max` the largest
/// value the target type holds: the value, or the first problem met. At
/// each character the digit is checked before the bound.
pub open spec fn scan_digits(d: Seq<char>, max: nat) -> Result<nat, IntErrorKind>
    decreases d.len(),
{
    if d.len() == 0 {
        Ok(0)
    } else {
        match scan_digits(d.drop_last(), max) {
            Err(e) => Err(e),
            Ok(v) => if !is_digit(d.last()) {
                Err(IntErrorKind::InvalidDigit)
            } else if v * 10 + digit_value(d.last()) > max {
                Err(IntErrorKind::PosOverflow)
            } else {
                Ok(v * 10 + digit_value(d.last()))
            },
        }
    }
}

/// What std's `from_str_radix(s, 10)` gives for an unsigned type whose
/// largest value is `max`: an optional leading `+`, then digits only.
pub open spec fn parse_unsigned(s: Seq<char>, max: nat) -> Result<nat, IntErrorKind> {
    if s.len() == 0 {
        Err(IntErrorKind::Empty)
    } else if s.len() == 1 && (s[0] == '+' || s[0] == '-') {
        Err(IntErrorKind::InvalidDigit)
    } else if s[0] == '+' {
        scan_digits(s.drop_first(), max)
    } else {
        scan_digits(s, max)
    }
}

/// Appends the decimal notation of `n`.
pub fn push_decimal(s: &mut String, n: u128)
    ensures
        final(s)@ == old(s)@ + decimal(n as nat),
    decreases n,
{
    if n >= 10 {
        push_decimal(s, n / 10);
    }
    let d = (n % 10) as u8;
    let c = (d + 48) as char;
    assert(c == digit_char((n % 10) as nat));
    string_push(s, c);
    proof {
        if n >= 10 {
            assert(decimal(n as nat) == decimal((n / 10) as nat).push(digit_char((n % 10) as nat)));
        } else {
            assert(decimal(n as nat) == seq![digit_char(n as nat)]);
        }
    }
}

/// The decimal notation of an unsigned number, as its `to_string` gives.
pub fn u128_to_string(n: u128) -> (res: String)
    ensures
        res@ == decimal(n as nat),
{
    let mut s = String::new();
    push_decimal(&mut s, n);
    assert(s@ =~= decimal(n as nat));
    s
}

/// The decimal notation of a signed number, as its `to_string` gives.
pub fn i128_to_string(v: i128) -> (res: String)
    ensures
        res@ == signed_decimal(v as int),
{
    let mut s = String::new();
    if v < 0 {
        string_push(&mut s, '-');
        let m: u128 = if v == i128::MIN {
            0x8000_0000_0000_0000_0000_0000_0000_0000u128
        } else {
            (-v) as u128
        };
        push_decimal(&mut s, m);
    } else {
        push_decimal(&mut s, v as u128);
    }
    assert(s@ =~= signed_decimal(v as int));
    s
}

/// The text of a boolean, as its `to_string` gives.
pub fn bool_to_string(b: bool) -> (res: String)
    ensures
        res@ == bool_text(b),
{
    if b {
        proof { reveal_strlit("true"); }
        "true".to_owned()
    } else {
        proof { reveal_strlit("false"); }
        "false".to_owned()
    }
}

/// Reads an unsigned decimal number no larger than `max`, as std's
/// `from_str_radix(s, 10)` does for an unsigned type of that range.
pub fn parse_unsigned_decimal(s: &str, max: u64) -> (res: Result<u64, IntErrorKind>)
    ensures
        match res {
            Ok(v) => parse_unsigned(s@, max as nat) == Ok::<nat, IntErrorKind>(v as nat),
            Err(e) => parse_unsigned(s@, max as nat) == Err::<nat, IntErrorKind>(e),
        },
{
    let len = s.unicode_len();
    if len == 0 {
        return Err(IntErrorKind::Empty);
    }
    let first = s.get_char(0);
    if len == 1 && (first == '+' || first == '-') {
        return Err(IntErrorKind::InvalidDigit);
    }
    let start: usize = if first == '+' { 1 } else { 0 };
    let ghost d = s@.skip(start as int);
    assert(parse_unsigned(s@, max as nat) == scan_digits(d, max as nat)) by {
        if first == '+' {
            assert(d =~= s@.drop_first());
        } else {
            assert(d =~= s@);
        }
    }
    let mut v: u128 = 0;
    let mut i: usize = start;
    while i < len
        invariant
            start <= i <= len,
            len == s@.len(),
            d == s@.skip(start as int),
            parse_unsigned(s@, max as nat) == scan_digits(d, max as nat),
            scan_digits(d.take(i - start), max as nat) == Ok::<nat, IntErrorKind>(v as nat),
            v <= max,
        decreases len - i,
    {
        let c = s.get_char(i);
        let ghost pre = d.take(i - start);
        assert(d.take(i + 1 - start).drop_last() =~= pre);
        assert(d.take(i + 1 - start).last() == c);
        if c < '0' || c > '9' {
            assert(!is_digit(c));
            assert(scan_digits(d.take(i + 1 - start), max as nat) == Err::<nat, IntErrorKind>(
                IntErrorKind::InvalidDigit,
            ));
            proof { lemma_scan_error_extends(d, (i + 1 - start) as nat, max as nat); }
            return Err(IntErrorKind::InvalidDigit);
        }
        let x = (c as u32 - 48) as u128;
        assert(is_digit(c) && x == digit_value(c));
        let next = v * 10 + x;
        if next > max as u128 {
            assert(scan_digits(d.take(i + 1 - start), max as nat) == Err::<nat, IntErrorKind>(
                IntErrorKind::PosOverflow,
            ));
            proof { lemma_scan_error_extends(d, (i + 1 - start) as nat, max as nat); }
            return Err(IntErrorKind::PosOverflow);
        }
        v = next;
        i = i + 1;
        assert(scan_digits(d.take(i - start), max as nat) == Ok::<nat, IntErrorKind>(v as nat));
    }
    assert(d.take(len - start) =~= d);
    Ok(v as u64)
}

/// Once reading a prefix of the digits fails, reading all of them fails
/// in the same way.
pub proof fn lemma_scan_error_extends(d: Seq<char>, k: nat, max: nat)
    requires
        k <= d.len(),
        scan_digits(d.take(k as int), max) is Err,
    ensures
        scan_digits(d, max) == scan_digits(d.take(k as int), max),
    decreases d.len() - k,
{
    if k < d.len() {
        assert(d.take((k + 1) as int).drop_last() =~= d.take(k as int));
        lemma_scan_error_extends(d, k + 1, max);
    } else {
        assert(d.take(k as int) =~= d);
    }
}

/// A fresh owned copy of a string slice.
pub fn owned(s: &str) -> (res: String)
    ensures
        res@ == s@,
{
    s.to_owned()
}

} // verus!
