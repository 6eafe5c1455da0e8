//! Decimal integers in text: the `FromStr` grammar of Rust's integer and
//! boolean types, and their `Display` form.
use vstd::prelude::*;
use crate::text::{append_chars, char_is_ascii_digit, is_ascii_digit, same_chars, slice_of, string_from};

verus! {

pub open spec fn digit_value(c: char) -> nat {
    ((c as u32) - 48) as nat
}

pub open spec fn digit_char(d: nat) -> char {
    ((d + 48) as u8) as char
}

pub open spec fn all_digits(s: Seq<char>) -> bool {
    forall|i: int| 0 <= i < s.len() ==> is_ascii_digit(#[trigger] s[i])
}

/// The number a run of decimal digits denotes.
pub open spec fn digits_value(s: Seq<char>) -> nat
    decreases s.len(),
{
    if s.len() == 0 {
        0
    } else {
        digits_value(s.drop_last()) * 10 + digit_value(s.last())
    }
}

/// `FromStr` of an unsigned integer type whose largest value is `max`: an
/// optional `+`, then one or more ASCII digits whose value is at most `max`.
pub open spec fn parse_unsigned(s: Seq<char>, max: nat) -> Option<nat> {
    let d = if s.len() > 0 && s[0] == '+' {
        s.drop_first()
    } else {
        s
    };
    if d.len() > 0 && all_digits(d) && digits_value(d) <= max {
        Some(digits_value(d))
    } else {
        None
    }
}

/// `i64::from_str`: an optional sign, then one or more ASCII digits whose
/// value fits in `i64`.
pub open spec fn parse_i64(s: Seq<char>) -> Option<int> {
    if s.len() > 0 && s[0] == '-' {
        let d = s.drop_first();
        if d.len() > 0 && all_digits(d) && digits_value(d) <= 0x8000_0000_0000_0000 {
            Some(-(digits_value(d) as int))
        } else {
            None
        }
    } else {
        match parse_unsigned(s, i64::MAX as nat) {
            Some(v) => Some(v as int),
            None => None,
        }
    }
}

/// `bool::from_str`: exactly `true` or `false`.
pub open spec fn parse_bool(s: Seq<char>) -> Option<bool> {
    if s == seq!['t', 'r', 'u', 'e'] {
        Some(true)
    } else if s == seq!['f', 'a', 'l', 's', 'e'] {
        Some(false)
    } else {
        None
    }
}

/// The decimal form of a natural number, as `Display` writes it.
pub open spec fn decimal(n: nat) -> Seq<char>
    decreases n,
{
    if n < 10 {
        seq![digit_char(n)]
    } else {
        decimal(n / 10).push(digit_char(n % 10))
    }
}

/// The decimal form of an integer, with a leading `-` when negative.
pub open spec fn signed_decimal(n: int) -> Seq<char> {
    if n < 0 {
        seq!['-'] + decimal((-n) as nat)
    } else {
        decimal(n as nat)
    }
}

/// `format!("{:0width$}", n)`: the decimal form padded with leading zeros.
pub open spec fn zero_padded(n: nat, width: nat) -> Seq<char> {
    let d = decimal(n);
    if d.len() < width {
        Seq::new((width - d.len()) as nat, |i: int| '0') + d
    } else {
        d
    }
}

proof fn lemma_digits_value_prefix(s: Seq<char>, i: int)
    requires
        0 <= i <= s.len(),
    ensures
        digits_value(s.take(i)) <= digits_value(s),
    decreases s.len() - i,
{
    if i < s.len() {
        lemma_digits_value_prefix(s.drop_last(), i);
        assert(s.drop_last().take(i) == s.take(i));
    } else {
        assert(s.take(i) == s);
    }
}

proof fn lemma_digit_char(k: nat)
    requires
        k < 10,
    ensures
        digit_value(digit_char(k)) == k,
        is_ascii_digit(digit_char(k)),
        digit_char(k) != '+' && digit_char(k) != '-',
{
    let b = (k + 48) as u8;
    assert(b as nat == k + 48);
    assert((b as char) as u32 == b as u32);
}

/// The digits of a decimal form, and the number they denote.
pub proof fn lemma_decimal(n: nat)
    ensures
        all_digits(decimal(n)),
        digits_value(decimal(n)) == n,
        decimal(n).len() >= 1,
        decimal(n)[0] != '+' && decimal(n)[0] != '-',
    decreases n,
{
    if n >= 10 {
        lemma_decimal(n / 10);
        lemma_digit_char(n % 10);
        let d = decimal(n);
        assert(d.drop_last() == decimal(n / 10));
        assert(d.last() == digit_char(n % 10));
        assert(digits_value(d) == digits_value(d.drop_last()) * 10 + digit_value(d.last()));
        assert(digits_value(d) == (n / 10) * 10 + n % 10);
        assert(n == (n / 10) * 10 + n % 10) by (nonlinear_arith);
        assert(d[0] == decimal(n / 10)[0]);
        assert forall|i: int| 0 <= i < d.len() implies is_ascii_digit(#[trigger] d[i]) by {
            if i < d.len() - 1 {
                assert(d[i] == decimal(n / 10)[i]);
            }
        }
    } else {
        lemma_digit_char(n);
        let d = decimal(n);
        assert(d.drop_last() =~= Seq::<char>::empty());
        assert(digits_value(d.drop_last()) == 0);
        assert(digits_value(d) == digits_value(d.drop_last()) * 10 + digit_value(d.last()));
    }
}

/// Reading back the decimal form of a number gives the number.
pub proof fn lemma_parse_decimal(n: nat, max: nat)
    requires
        n <= max,
    ensures
        parse_unsigned(decimal(n), max) == Some(n),
{
    lemma_decimal(n);
}

/// Reading back the signed decimal form of an `i64` gives it back.
pub proof fn lemma_parse_signed_decimal(n: i64)
    ensures
        parse_i64(signed_decimal(n as int)) == Some(n as int),
{
    if n < 0 {
        lemma_decimal((-n) as nat);
        assert((seq!['-'] + decimal((-n) as nat)).drop_first() == decimal((-n) as nat));
    } else {
        lemma_decimal(n as nat);
    }
}

/// Why `FromStr` of an unsigned integer type refuses a text.
#[derive(Clone, Copy, Debug, PartialEq, Eq, Structural)]
pub enum IntErrorKind {
    Empty,
    InvalidDigit,
    PosOverflow,
}

impl IntErrorKind {
    /// The text `ParseIntError` displays for this kind.
    pub fn message(&self) -> (s: &'static str)
        ensures
            s@ == int_error_message(*self),
    {
        match self {
            IntErrorKind::Empty => "cannot parse integer from empty string",
            IntErrorKind::InvalidDigit => "invalid digit found in string",
            IntErrorKind::PosOverflow => "number too large to fit in target type",
        }
    }
}

pub open spec fn int_error_message(kind: IntErrorKind) -> Seq<char> {
    match kind {
        IntErrorKind::Empty => "cannot parse integer from empty string"@,
        IntErrorKind::InvalidDigit => "invalid digit found in string"@,
        IntErrorKind::PosOverflow => "number too large to fit in target type"@,
    }
}

/// The digits of an unsigned number's text: all of it after an optional `+`.
pub open spec fn unsigned_digits(s: Seq<char>) -> Seq<char> {
    if s.len() > 0 && s[0] == '+' {
        s.drop_first()
    } else {
        s
    }
}

/// Reading the first `n` digits of `d` from the left, the fault that stops
/// the reading first: a character that is no digit, or a value past `max`.
pub open spec fn digit_fault(d: Seq<char>, max: nat, n: nat) -> Option<IntErrorKind>
    decreases n,
{
    if n == 0 || n > d.len() {
        None
    } else {
        match digit_fault(d, max, (n - 1) as nat) {
            Some(e) => Some(e),
            None => if !is_ascii_digit(d[n - 1]) {
                Some(IntErrorKind::InvalidDigit)
            } else if digits_value(d.take(n as int)) > max {
                Some(IntErrorKind::PosOverflow)
            } else {
                None
            },
        }
    }
}

/// The kind of error `FromStr` reports for a text it refuses.
pub open spec fn unsigned_error(s: Seq<char>, max: nat) -> IntErrorKind {
    let d = unsigned_digits(s);
    if s.len() == 0 {
        IntErrorKind::Empty
    } else if d.len() == 0 {
        IntErrorKind::InvalidDigit
    } else {
        match digit_fault(d, max, d.len()) {
            Some(e) => e,
            None => IntErrorKind::InvalidDigit,
        }
    }
}

/// Once a fault is found, reading further digits reports the same fault.
proof fn lemma_digit_fault_stable(d: Seq<char>, max: nat, n: nat, m: nat)
    requires
        n <= m <= d.len(),
        digit_fault(d, max, n) is Some,
    ensures
        digit_fault(d, max, m) == digit_fault(d, max, n),
    decreases m - n,
{
    if m > n {
        lemma_digit_fault_stable(d, max, n, (m - 1) as nat);
    }
}

/// `FromStr` of an unsigned integer type with largest value `max`, with the
/// kind of error it reports.
pub fn parse_unsigned_checked(s: &Vec<char>, max: u64) -> (r: Result<u64, IntErrorKind>)
    ensures
        r matches Ok(v) ==> parse_unsigned(s@, max as nat) == Some(v as nat),
        r matches Err(e) ==> parse_unsigned(s@, max as nat) is None && e == unsigned_error(
            s@,
            max as nat,
        ),
{
    if s.len() == 0 {
        return Err(IntErrorKind::Empty);
    }
    let start: usize = if s[0] == '+' {
        1
    } else {
        0
    };
    let ghost d = unsigned_digits(s@);
    assert(d == s@.skip(start as int));
    if start >= s.len() {
        return Err(IntErrorKind::InvalidDigit);
    }
    let mut acc: u64 = 0;
    let mut i = start;
    while i < s.len()
        invariant
            start <= i <= s.len(),
            s.len() > 0,
            d == s@.skip(start as int),
            d == unsigned_digits(s@),
            d.len() > 0,
            acc as nat == digits_value(d.take(i - start)),
            all_digits(d.take(i - start)),
            digit_fault(d, max as nat, (i - start) as nat) is None,
            acc <= max,
        decreases s.len() - i,
    {
        let c = s[i];
        let ghost k = i - start;
        assert(d[k] == c);
        assert(d.take(k + 1).drop_last() == d.take(k));
        assert(d.take(k + 1).last() == c);
        if !char_is_ascii_digit(c) {
            assert(!all_digits(d));
            assert(digit_fault(d, max as nat, (k + 1) as nat) == Some(IntErrorKind::InvalidDigit));
            proof {
                lemma_digit_fault_stable(d, max as nat, (k + 1) as nat, d.len());
            }
            return Err(IntErrorKind::InvalidDigit);
        }
        let digit = (c as u32 - 48) as u64;
        assert(digit_value(c) == digit);
        assert(digits_value(d.take(k + 1)) == digits_value(d.take(k)) * 10 + digit_value(c));
        if digit > max || acc > (max - digit) / 10 {
            proof {
                if digit <= max {
                    assert(acc * 10 + digit > max) by (nonlinear_arith)
                        requires
                            acc > (max - digit) / 10,
                            digit <= max,
                    ;
                }
                assert(digits_value(d.take(k + 1)) > max);
                lemma_digits_value_prefix(d, k + 1);
                assert(digits_value(d) > max);
                assert(digit_fault(d, max as nat, (k + 1) as nat) == Some(IntErrorKind::PosOverflow));
                lemma_digit_fault_stable(d, max as nat, (k + 1) as nat, d.len());
            }
            return Err(IntErrorKind::PosOverflow);
        }
        assert(acc * 10 + digit <= max) by (nonlinear_arith)
            requires
                acc <= (max - digit) / 10,
                digit <= max,
        ;
        acc = acc * 10 + digit;
        proof {
            assert forall|q: int| 0 <= q < k + 1 implies is_ascii_digit(#[trigger] d.take(k + 1)[q]) by {
                if q < k {
                    assert(d.take(k + 1)[q] == d.take(k)[q]);
                }
            }
        }
        i = i + 1;
    }
    assert(d.take(s.len() - start) == d);
    Ok(acc)
}

/// `FromStr` of an unsigned integer type with largest value `max`.
pub fn parse_unsigned_chars(s: &Vec<char>, max: u64) -> (r: Option<u64>)
    ensures
        r matches Some(v) ==> parse_unsigned(s@, max as nat) == Some(v as nat),
        r is None ==> parse_unsigned(s@, max as nat) is None,
{
    match parse_unsigned_checked(s, max) {
        Ok(v) => Some(v),
        Err(_) => None,
    }
}

/// `u64::from_str`.
pub fn parse_u64(s: &Vec<char>) -> (r: Option<u64>)
    ensures
        r matches Some(v) ==> parse_unsigned(s@, u64::MAX as nat) == Some(v as nat),
        r is None ==> parse_unsigned(s@, u64::MAX as nat) is None,
{
    parse_unsigned_chars(s, u64::MAX)
}

/// `i64::from_str`.
pub fn parse_i64_chars(s: &Vec<char>) -> (r: Option<i64>)
    ensures
        r matches Some(v) ==> parse_i64(s@) == Some(v as int),
        r is None ==> parse_i64(s@) is None,
{
    if s.len() > 0 && s[0] == '-' {
        let rest = slice_of(s, 1, s.len());
        assert(rest@ == s@.drop_first());
        if rest.len() > 0 && rest[0] == '+' {
            assert(!is_ascii_digit(rest@[0]));
            return None;
        }
        match parse_unsigned_chars(&rest, 0x8000_0000_0000_0000u64) {
            Some(v) => {
                if v == 0x8000_0000_0000_0000u64 {
                    Some(i64::MIN)
                } else {
                    Some(-(v as i64))
                }
            },
            None => None,
        }
    } else {
        match parse_unsigned_chars(s, i64::MAX as u64) {
            Some(v) => Some(v as i64),
            None => None,
        }
    }
}

/// `bool::from_str`.
pub fn parse_bool_chars(s: &Vec<char>) -> (r: Option<bool>)
    ensures
        r == parse_bool(s@),
{
    let t = vec!['t', 'r', 'u', 'e'];
    let f = vec!['f', 'a', 'l', 's', 'e'];
    assert(t@ == seq!['t', 'r', 'u', 'e']);
    assert(f@ == seq!['f', 'a', 'l', 's', 'e']);
    if same_chars(s, &t) {
        Some(true)
    } else if same_chars(s, &f) {
        Some(false)
    } else {
        None
    }
}

fn digit_to_char(d: u64) -> (c: char)
    requires
        d < 10,
    ensures
        c == digit_char(d as nat),
        is_ascii_digit(c),
{
    ((d + 48) as u8) as char
}

/// The decimal form of `n`.
pub fn decimal_chars(n: u64) -> (out: Vec<char>)
    ensures
        out@ == decimal(n as nat),
    decreases n,
{
    if n < 10 {
        let mut v: Vec<char> = Vec::new();
        v.push(digit_to_char(n));
        assert(v@ == seq![digit_char(n as nat)]);
        v
    } else {
        let mut v = decimal_chars(n / 10);
        v.push(digit_to_char(n % 10));
        v
    }
}

/// The decimal form of `n`, with a leading `-` when negative.
pub fn signed_decimal_chars(n: i64) -> (out: Vec<char>)
    ensures
        out@ == signed_decimal(n as int),
{
    if n < 0 {
        let magnitude: u64 = if n == i64::MIN {
            0x8000_0000_0000_0000u64
        } else {
            (-n) as u64
        };
        let mut out: Vec<char> = Vec::new();
        out.push('-');
        let digits = decimal_chars(magnitude);
        append_chars(&mut out, &digits);
        assert(out@ =~= seq!['-'] + decimal((-(n as int)) as nat));
        out
    } else {
        decimal_chars(n as u64)
    }
}

/// The decimal form of `n`, padded with leading zeros to `width` characters.
pub fn zero_padded_chars(n: u64, width: usize) -> (out: Vec<char>)
    ensures
        out@ == zero_padded(n as nat, width as nat),
{
    let d = decimal_chars(n);
    if d.len() < width {
        let mut out: Vec<char> = Vec::new();
        let pad = width - d.len();
        for i in 0..pad
            invariant
                out@ == Seq::new(i as nat, |q: int| '0'),
        {
            out.push('0');
            assert(out@ =~= Seq::new((i + 1) as nat, |q: int| '0'));
        }
        append_chars(&mut out, &d);
        out
    } else {
        d
    }
}

/// The decimal form of `n` as a `String`.
pub fn u64_to_string(n: u64) -> (out: String)
    ensures
        out@ == decimal(n as nat),
{
    string_from(&decimal_chars(n))
}

/// The decimal form of `n` as a `String`.
pub fn i64_to_string(n: i64) -> (out: String)
    ensures
        out@ == signed_decimal(n as int),
{
    string_from(&signed_decimal_chars(n))
}

} // verus!
