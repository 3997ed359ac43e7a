//! Decimal numbers: reading them from text and writing them down.

use crate::text::{chars_of, string_of};
use vstd::prelude::*;
use vstd::arithmetic::power::*;
use vstd::string::*;

verus! {

/// An ASCII digit.
pub open spec fn is_digit(c: char) -> bool {
    '0' <= c <= '9'
}

/// The number that a digit stands for.
pub open spec fn digit_value(c: char) -> nat {
    (c as u32 - '0' as u32) as nat
}

/// The digit that stands for `d`.
pub open spec fn digit_char(d: nat) -> char {
    ('0' as u32 + d) as char
}

/// Whether `s` is made of digits alone. The empty text is.
pub open spec fn all_digits(s: Seq<char>) -> bool {
    forall|i: int| 0 <= i < s.len() ==> is_digit(#[trigger] s[i])
}

/// The number that a row of digits stands for, in base ten.
pub open spec fn digits_value(s: Seq<char>) -> nat
    decreases s.len(),
{
    if s.len() == 0 {
        0
    } else {
        digits_value(s.drop_last()) * 10 + digit_value(s.last())
    }
}

/// `n` in decimal, without leading zeros.
pub open spec fn decimal(n: nat) -> Seq<char>
    decreases n,
{
    if n < 10 {
        seq![digit_char(n)]
    } else {
        decimal(n / 10).push(digit_char(n % 10))
    }
}

/// The last `k` decimal digits of `n`, leading zeros included.
pub open spec fn padded(n: nat, k: nat) -> Seq<char>
    decreases k,
{
    if k == 0 {
        Seq::empty()
    } else {
        padded(n / 10, (k - 1) as nat).push(digit_char(n % 10))
    }
}

/// The number that `s` stands for, where it is a plus sign or nothing, then
/// digits, and no more than `max`.
pub open spec fn unsigned_value(s: Seq<char>, max: nat) -> Option<nat> {
    let d = if s.len() > 0 && s[0] == '+' {
        s.skip(1)
    } else {
        s
    };
    if d.len() > 0 && all_digits(d) && digits_value(d) <= max {
        Some(digits_value(d))
    } else {
        None
    }
}

/// The number that `s` stands for, where it is a sign or nothing, then digits,
/// and fits 64 bits.
pub open spec fn signed_value(s: Seq<char>) -> Option<int> {
    if s.len() > 0 && s[0] == '-' {
        let d = s.skip(1);
        if d.len() > 0 && all_digits(d) && digits_value(d) <= -(i64::MIN as int) {
            Some(-(digits_value(d) as int))
        } else {
            None
        }
    } else {
        match unsigned_value(s, i64::MAX as nat) {
            Some(n) => Some(n as int),
            None => None,
        }
    }
}

/// `n` in decimal, with a minus sign where it is negative.
pub open spec fn signed_decimal(n: int) -> Seq<char> {
    if n < 0 {
        seq!['-'] + decimal((-n) as nat)
    } else {
        decimal(n as nat)
    }
}

/// A digit and the number it stands for are one for one.
pub proof fn digit_round_trip(d: nat)
    requires
        d < 10,
    ensures
        is_digit(digit_char(d)),
        digit_value(digit_char(d)) == d,
{
}

/// A row of digits behind another counts for ten to its length as much.
pub proof fn digits_value_concat(a: Seq<char>, b: Seq<char>)
    ensures
        digits_value(a + b) == digits_value(a) * pow(10, b.len()) + digits_value(b),
    decreases b.len(),
{
    lemma_pow0(10);
    if b.len() == 0 {
        assert(a + b =~= a);
    } else {
        assert((a + b).drop_last() =~= a + b.drop_last());
        digits_value_concat(a, b.drop_last());
        let p = pow(10, (b.len() - 1) as nat);
        assert(pow(10, b.len()) == 10 * p) by {
            reveal(pow);
        }
        let x = digits_value(a) as int;
        let y = digits_value(b.drop_last()) as int;
        assert((x * p + y) * 10 == x * (10 * p) + y * 10) by (nonlinear_arith);
    }
}

/// A shorter row of digits in front never counts for more than the whole row.
pub proof fn digits_value_monotone(s: Seq<char>, k: int)
    requires
        0 <= k <= s.len(),
    ensures
        digits_value(s.take(k)) <= digits_value(s),
    decreases s.len(),
{
    if k == s.len() {
        assert(s.take(k) =~= s);
    } else {
        digits_value_monotone(s.drop_last(), k);
        assert(s.drop_last().take(k) =~= s.take(k));
    }
}

/// Reading back what `decimal` writes gives the number.
pub proof fn decimal_round_trip(n: nat)
    ensures
        all_digits(decimal(n)),
        decimal(n).len() > 0,
        digits_value(decimal(n)) == n,
    decreases n,
{
    if n < 10 {
        digit_round_trip(n);
        assert(decimal(n).drop_last() =~= Seq::<char>::empty());
        assert(digits_value(Seq::<char>::empty()) == 0);
        assert(decimal(n).last() == digit_char(n));
    } else {
        decimal_round_trip(n / 10);
        digit_round_trip(n % 10);
        assert(decimal(n).drop_last() =~= decimal(n / 10));
    }
}

/// Reading back what `padded` writes gives the number, where it has that many
/// digits.
pub proof fn padded_round_trip(n: nat, k: nat)
    requires
        n < pow(10, k),
    ensures
        all_digits(padded(n, k)),
        padded(n, k).len() == k,
        digits_value(padded(n, k)) == n,
    decreases k,
{
    if k == 0 {
        lemma_pow0(10);
    } else {
        assert(pow(10, k) == 10 * pow(10, (k - 1) as nat)) by {
            reveal(pow);
        }
        padded_round_trip(n / 10, (k - 1) as nat);
        digit_round_trip(n % 10);
        assert(padded(n, k).drop_last() =~= padded(n / 10, (k - 1) as nat));
    }
}

/// The number that the row of digits stands for, where it is no more than
/// `max`; `None` for a row that is empty, too large or not of digits.
pub fn digits_up_to(v: &[char], max: u64) -> (r: Option<u64>)
    ensures
        match r {
            Some(n) => v@.len() > 0 && all_digits(v@) && n == digits_value(v@) && n <= max,
            None => !(v@.len() > 0 && all_digits(v@) && digits_value(v@) <= max),
        },
{
    if v.len() == 0 {
        return None;
    }
    let mut n: u64 = 0;
    let mut i: usize = 0;
    while i < v.len()
        invariant
            i <= v.len(),
            n <= max,
            n == digits_value(v@.take(i as int)),
            all_digits(v@.take(i as int)),
        decreases v.len() - i,
    {
        let c: char = v[i];
        if !('0' <= c && c <= '9') {
            assert(!is_digit(v@[i as int]));
            return None;
        }
        let d: u64 = (c as u32 - '0' as u32) as u64;
        proof {
            let i = i as int;
            assert(v@.take(i + 1).drop_last() =~= v@.take(i));
            assert(v@.take(i + 1).last() == c);
            digits_value_monotone(v@, i + 1);
        }
        if d > max || n > max / 10 || n * 10 > max - d {
            return None;
        }
        n = n * 10 + d;
        i = i + 1;
    }
    assert(v@.take(v@.len() as int) =~= v@);
    Some(n)
}

/// Reads an unsigned decimal number of at most `max`.
pub fn parse_unsigned(s: &str, max: u64) -> (r: Option<u64>)
    ensures
        match (r, unsigned_value(s@, max as nat)) {
            (Some(n), Some(m)) => n == m,
            (None, None) => true,
            _ => false,
        },
        r matches Some(n) ==> n <= max,
{
    let v = chars_of(s);
    if v.len() > 0 && v[0] == '+' {
        let d = vstd::slice::slice_subrange(v.as_slice(), 1, v.len());
        assert(d@ =~= s@.skip(1));
        digits_up_to(d, max)
    } else {
        digits_up_to(v.as_slice(), max)
    }
}

/// Reads an unsigned 64-bit decimal number.
pub fn parse_u64(s: &str) -> (r: Option<u64>)
    ensures
        match (r, unsigned_value(s@, u64::MAX as nat)) {
            (Some(n), Some(m)) => n == m,
            (None, None) => true,
            _ => false,
        },
{
    parse_unsigned(s, u64::MAX)
}

/// Reads a signed 64-bit decimal number.
pub fn parse_i64(s: &str) -> (r: Option<i64>)
    ensures
        match (r, signed_value(s@)) {
            (Some(n), Some(m)) => n == m,
            (None, None) => true,
            _ => false,
        },
{
    let v = chars_of(s);
    if v.len() > 0 && v[0] == '-' {
        let d = vstd::slice::slice_subrange(v.as_slice(), 1, v.len());
        assert(d@ =~= s@.skip(1));
        match digits_up_to(d, 0x8000_0000_0000_0000) {
            Some(n) => {
                if n == 0x8000_0000_0000_0000 {
                    Some(i64::MIN)
                } else {
                    Some(-(n as i64))
                }
            },
            None => None,
        }
    } else {
        match parse_unsigned(s, i64::MAX as u64) {
            Some(n) => Some(n as i64),
            None => None,
        }
    }
}

/// The character of a digit.
fn digit(d: u64) -> (c: char)
    requires
        d < 10,
    ensures
        c == digit_char(d as nat),
{
    (48u8 + d as u8) as char
}

/// `n` in decimal.
pub fn u64_chars(n: u64) -> (r: Vec<char>)
    ensures
        r@ == decimal(n as nat),
    decreases n,
{
    if n < 10 {
        let mut v: Vec<char> = Vec::new();
        v.push(digit(n));
        assert(v@ =~= seq![digit_char(n as nat)]);
        v
    } else {
        let mut v = u64_chars(n / 10);
        v.push(digit(n % 10));
        v
    }
}

/// `n` in decimal.
pub fn u64_text(n: u64) -> (s: String)
    ensures
        s@ == decimal(n as nat),
{
    let v = u64_chars(n);
    string_of(v.as_slice())
}

/// `n` in decimal, with a minus sign where it is negative.
pub fn i64_text(n: i64) -> (s: String)
    ensures
        s@ == signed_decimal(n as int),
{
    if n >= 0 {
        return u64_text(n as u64);
    }
    let magnitude: u64 = if n == i64::MIN {
        0x8000_0000_0000_0000
    } else {
        (-n) as u64
    };
    let mut s = String::new();
    s.push('-');
    let digits = u64_text(magnitude);
    s.append(digits.as_str());
    assert(s@ =~= seq!['-'] + decimal(magnitude as nat));
    s
}

/// The last `k` decimal digits of `n`.
pub fn padded_chars(n: u64, k: usize) -> (r: Vec<char>)
    ensures
        r@ == padded(n as nat, k as nat),
    decreases k,
{
    if k == 0 {
        Vec::new()
    } else {
        let mut v = padded_chars(n / 10, k - 1);
        v.push(digit(n % 10));
        v
    }
}

// ---------------------------------------------------------------------------
// Laws
// ---------------------------------------------------------------------------

/// A single digit stands for its distance from `0`, nothing for zero, and a
/// digit behind a row for ten times the row and itself: base ten.
pub proof fn digits_count_in_tens(s: Seq<char>, c: char)
    requires
        48 <= c as u32 <= 57,
    ensures
        digits_value(Seq::<char>::empty()) == 0,
        digits_value(s.push(c)) == 10 * digits_value(s) + (c as u32 - 48),
{
    assert(s.push(c).drop_last() =~= s);
}

/// Digits alone, with a plus sign before them or none, are read as the number
/// that they stand for, up to the greatest that is allowed; with a minus sign
/// as its opposite, down to the least 64-bit number.
pub proof fn numbers_are_read(d: Seq<char>, max: nat)
    requires
        d.len() > 0,
        forall|i: int| 0 <= i < d.len() ==> '0' <= #[trigger] d[i] <= '9',
    ensures
        unsigned_value(d, max) == if digits_value(d) <= max {
            Some(digits_value(d))
        } else {
            None
        },
        unsigned_value(seq!['+'] + d, max) == unsigned_value(d, max),
        signed_value(d) == if digits_value(d) <= 0x7fff_ffff_ffff_ffff {
            Some(digits_value(d) as int)
        } else {
            None
        },
        unsigned_value(seq!['-'] + d, max) is None,
        signed_value(seq!['+'] + d) == signed_value(d),
        signed_value(seq!['-'] + d) == if digits_value(d) <= 0x8000_0000_0000_0000 {
            Some(-(digits_value(d) as int))
        } else {
            None
        },
{
    assert(d[0] != '+' && d[0] != '-');
    assert(all_digits(d));
    assert((seq!['+'] + d).skip(1) =~= d);
    assert((seq!['-'] + d).skip(1) =~= d);
    assert((seq!['+'] + d)[0] == '+');
    assert((seq!['-'] + d)[0] == '-');
    assert(!is_digit((seq!['-'] + d)[0]));
}

/// Nothing else is a number: no text without a digit, and none with a character
/// that is no digit behind the sign.
pub proof fn other_text_is_no_number(s: Seq<char>, max: nat, i: int)
    requires
        0 <= i < s.len() ==> !(48 <= s[i] as u32 <= 57),
        0 <= i <= s.len(),
        i == s.len() ==> s.len() == 0,
    ensures
        i > 0 || s.len() <= 1 || !(s[0] == '+' || s[0] == '-') ==> unsigned_value(s, max) is None
            && signed_value(s) is None,
{
    if i < s.len() {
        if i > 0 {
            assert(s.skip(1)[i - 1] == s[i]);
            assert(!is_digit(s[i]));
            assert(!is_digit(s.skip(1)[i - 1]));
        } else {
            assert(!is_digit(s[0]));
        }
    }
}

/// A number that is written reads back as itself, and is written without
/// needless zeros.
pub proof fn written_numbers_read_back(n: nat, max: nat)
    requires
        n <= max,
    ensures
        unsigned_value(decimal(n), max) == Some(n),
        n > 0 ==> decimal(n)[0] != '0',
        n < 10 ==> decimal(n).len() == 1,
        n <= 0x7fff_ffff_ffff_ffff ==> signed_value(signed_decimal(n as int)) == Some(n as int),
        0 < n <= 0x8000_0000_0000_0000 ==> signed_value(signed_decimal(-(n as int))) == Some(
            -(n as int),
        ),
    decreases n,
{
    decimal_round_trip(n);
    let d = decimal(n);
    assert forall|i: int| 0 <= i < d.len() implies '0' <= #[trigger] d[i] <= '9' by {
        assert(is_digit(d[i]));
    }
    numbers_are_read(d, max);
    if n >= 10 {
        written_numbers_read_back(n / 10, n / 10);
        decimal_round_trip(n / 10);
        assert(d[0] == decimal(n / 10)[0]);
    }
}

} // verus!
