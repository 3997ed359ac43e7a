//! GRIN amounts: whole coins and nanogrin.

use crate::digits;
use crate::digits::{digits_up_to, padded_chars, u64_text};
use crate::text;
use crate::text::{chars_of, split_once, string_of, trim, trim_trailing};
use vstd::arithmetic::power::*;
use vstd::prelude::*;
use vstd::string::*;

verus! {

/// The nanogrin in one GRIN.
pub const NANO: u64 = 1_000_000_000;

/// What a decimal GRIN amount stands for, in nanogrin, or why it is refused.
pub open spec fn amount(given: Seq<char>) -> Result<nat, Seq<char>> {
    let s = text::trimmed(given);
    let (whole, frac) = match text::split_at_first(s, '.') {
        Some(parts) => parts,
        None => (s, Seq::empty()),
    };
    let bad = "invalid GRIN amount `"@ + s + "`"@;
    if whole.len() == 0 && frac.len() == 0 {
        Err(bad)
    } else if !digits::all_digits(whole) || !digits::all_digits(frac) {
        Err(bad)
    } else if frac.len() > 9 {
        Err("`"@ + s + "` has more than 9 decimal places"@)
    } else {
        let n = digits::digits_value(whole) * NANO + digits::digits_value(frac) * pow(
            10,
            (9 - frac.len()) as nat,
        );
        if n <= u64::MAX {
            Ok(n as nat)
        } else {
            Err(bad)
        }
    }
}

/// Nanogrin written as GRIN: no point where nothing stands behind it, and no
/// zeros at the end.
pub open spec fn grin_text(nano: nat) -> Seq<char> {
    let whole = nano / (NANO as nat);
    let frac = nano % (NANO as nat);
    if frac == 0 {
        digits::decimal(whole)
    } else {
        digits::decimal(whole) + seq!['.'] + text::without_trailing(digits::padded(frac, 9), '0')
    }
}

fn ten_to(k: usize) -> (r: u64)
    requires
        k <= 9,
    ensures
        r == pow(10, k as nat),
        1 <= r <= NANO,
{
    let mut r: u64 = 1;
    let mut i: usize = 0;
    proof {
        lemma_pow0(10);
        ten_to_nine();
    }
    while i < k
        invariant
            i <= k <= 9,
            r == pow(10, i as nat),
            1 <= r,
            r * pow(10, (9 - i) as nat) == NANO,
        decreases k - i,
    {
        proof {
            reveal(pow);
            let rest = pow(10, (8 - i) as nat);
            lemma_pow_positive(10, (8 - i) as nat);
            assert(pow(10, (9 - i) as nat) == 10 * rest);
            assert(r * (10 * rest) == (r * 10) * rest) by (nonlinear_arith);
            assert(r * 10 <= (r * 10) * rest) by (nonlinear_arith)
                requires
                    rest >= 1,
            ;
        }
        r = r * 10;
        i = i + 1;
    }
    proof {
        let rest = pow(10, (9 - k) as nat);
        lemma_pow_positive(10, (9 - k) as nat);
        assert(r <= r * rest) by (nonlinear_arith)
            requires
                rest >= 1,
        ;
    }
    r
}

proof fn ten_to_nine()
    ensures
        pow(10, 9) == NANO,
{
    reveal_with_fuel(pow, 10);
}

/// Parse a decimal GRIN amount ("1", "0.5", "2.25") into nanogrin. Refuses
/// negative amounts, more than nine decimal places, and anything else.
pub fn grin_to_nanogrin(s: &str) -> (r: Result<u64, String>)
    ensures
        match (r, amount(s@)) {
            (Ok(n), Ok(m)) => n == m,
            (Err(e), Err(f)) => e@ == f,
            _ => false,
        },
{
    let s = trim(s);
    let mut bad = "invalid GRIN amount `".to_owned();
    bad.append(s);
    bad.append("`");
    let (whole, frac) = match split_once(s, '.') {
        Some((w, f)) => (w, f),
        None => (s, ""),
    };
    proof {
        reveal_strlit("");
        assert(""@ =~= Seq::<char>::empty());
    }
    let w = chars_of(whole);
    let f = chars_of(frac);
    if w.len() == 0 && f.len() == 0 {
        return Err(bad);
    }
    if !digits_only(w.as_slice()) || !digits_only(f.as_slice()) {
        return Err(bad);
    }
    if f.len() > 9 {
        let mut e = "`".to_owned();
        e.append(s);
        e.append("` has more than 9 decimal places");
        return Err(e);
    }
    let scale: u64 = ten_to(9 - f.len());
    proof {
        fraction_fits(f@);
    }
    let frac_n: u64 = if f.len() == 0 {
        0
    } else {
        match digits_up_to(f.as_slice(), u64::MAX) {
            Some(n) => n,
            None => {
                proof {
                    value_below_pow(f@);
                    ten_to_nine();
                    lemma_pow_increases(10, f@.len(), 9);
                }
                0
            },
        }
    };
    let frac_nano: u64 = frac_n * scale;
    let whole_n: u64 = if w.len() == 0 {
        0
    } else {
        match digits_up_to(w.as_slice(), u64::MAX) {
            Some(n) => n,
            None => {
                return Err(bad);
            },
        }
    };
    match whole_n.checked_mul(NANO) {
        Some(n) => match n.checked_add(frac_nano) {
            Some(total) => Ok(total),
            None => Err(bad),
        },
        None => Err(bad),
    }
}

fn digits_only(v: &[char]) -> (b: bool)
    ensures
        b == digits::all_digits(v@),
{
    let mut i: usize = 0;
    while i < v.len()
        invariant
            i <= v.len(),
            forall|j: int| 0 <= j < i ==> digits::is_digit(#[trigger] v@[j]),
        decreases v.len() - i,
    {
        let c = v[i];
        if !('0' <= c && c <= '9') {
            assert(!digits::is_digit(v@[i as int]));
            return false;
        }
        i = i + 1;
    }
    true
}

/// A row of `k` digits stands for less than ten to the `k`.
proof fn value_below_pow(s: Seq<char>)
    requires
        digits::all_digits(s),
    ensures
        digits::digits_value(s) < pow(10, s.len()),
    decreases s.len(),
{
    reveal(pow);
    if s.len() == 0 {
        lemma_pow0(10);
    } else {
        let rest = s.drop_last();
        assert forall|i: int| 0 <= i < rest.len() implies digits::is_digit(#[trigger] rest[i]) by {
            assert(rest[i] == s[i]);
        }
        value_below_pow(rest);
        assert(digits::is_digit(s[s.len() - 1]));
    }
}

proof fn fraction_fits(f: Seq<char>)
    requires
        digits::all_digits(f),
        f.len() <= 9,
    ensures
        digits::digits_value(f) * pow(10, (9 - f.len()) as nat) < NANO,
{
    value_below_pow(f);
    ten_to_nine();
    lemma_pow_adds(10, f.len(), (9 - f.len()) as nat);
    lemma_pow_positive(10, (9 - f.len()) as nat);
    let v = digits::digits_value(f) as int;
    let p = pow(10, f.len());
    let q = pow(10, (9 - f.len()) as nat);
    assert(v * q < p * q) by (nonlinear_arith)
        requires
            v < p,
            q >= 1,
    ;
}

/// Format nanogrin as a decimal GRIN amount without zeros at its end.
pub fn nanogrin_to_grin(nano: u64) -> (s: String)
    ensures
        s@ == grin_text(nano as nat),
{
    let whole: u64 = nano / NANO;
    let frac: u64 = nano % NANO;
    let mut s = u64_text(whole);
    if frac != 0 {
        let v = padded_chars(frac, 9);
        let shown = string_of(v.as_slice());
        s.push('.');
        s.append(trim_trailing(shown.as_str(), '0'));
        assert(s@ =~= digits::decimal(whole as nat) + seq!['.'] + text::without_trailing(
            digits::padded(frac as nat, 9),
            '0',
        ));
    }
    s
}

/// Dropping the zeros at the end of a row of digits divides by the power of
/// ten that they stood for.
proof fn trailing_zeros(s: Seq<char>)
    requires
        digits::all_digits(s),
    ensures
        digits::all_digits(text::without_trailing(s, '0')),
        text::without_trailing(s, '0').len() <= s.len(),
        digits::digits_value(s) == digits::digits_value(text::without_trailing(s, '0')) * pow(
            10,
            (s.len() - text::without_trailing(s, '0').len()) as nat,
        ),
        digits::digits_value(s) > 0 ==> text::without_trailing(s, '0').len() > 0,
    decreases s.len(),
{
    lemma_pow0(10);
    if s.len() > 0 && s.last() == '0' {
        let rest = s.drop_last();
        assert forall|i: int| 0 <= i < rest.len() implies digits::is_digit(#[trigger] rest[i]) by {
            assert(rest[i] == s[i]);
        }
        trailing_zeros(rest);
        let t = text::without_trailing(rest, '0');
        let k = (rest.len() - t.len()) as nat;
        reveal(pow);
        assert(digits::digits_value(s) == digits::digits_value(rest) * 10);
        assert(pow(10, k + 1) == 10 * pow(10, k));
        let a = digits::digits_value(t) as int;
        let b = pow(10, k);
        assert((a * b) * 10 == a * (10 * b)) by (nonlinear_arith);
    } else {
        let v = digits::digits_value(s) as int;
        assert(v * 1 == v);
        if s.len() == 0 {
            assert(digits::digits_value(s) == 0);
        }
    }
}

/// What is written of an amount reads back as that amount.
pub proof fn amount_round_trip(nano: u64)
    ensures
        amount(grin_text(nano as nat)) == Ok::<nat, Seq<char>>(nano as nat),
{
    let whole = (nano as nat) / (NANO as nat);
    let frac = (nano as nat) % (NANO as nat);
    let w = digits::decimal(whole);
    digits::decimal_round_trip(whole);
    lemma_pow0(10);
    ten_to_nine();
    let s = grin_text(nano as nat);
    if frac == 0 {
        assert forall|i: int| 0 <= i < s.len() implies !text::is_space(#[trigger] s[i]) && s[i]
            != '.' by {
            assert(digits::is_digit(s[i]));
        }
        no_space_trimmed(s);
        text::find_is_first(s, '.');
        assert(text::split_at_first(s, '.') is None) by {
            if s.contains('.') {
                let i = choose|i: int| 0 <= i < s.len() && s[i] == '.';
                assert(s[i] != '.');
            }
        }
        let e = Seq::<char>::empty();
        assert(digits::digits_value(e) == 0);
        assert(0 * pow(10, 9) == 0);
    } else {
        let p = digits::padded(frac, 9);
        digits::padded_round_trip(frac, 9);
        let f = text::without_trailing(p, '0');
        trailing_zeros(p);
        assert forall|i: int| 0 <= i < s.len() implies !text::is_space(#[trigger] s[i]) by {
            if i < w.len() {
                assert(s[i] == w[i]);
                assert(digits::is_digit(w[i]));
            } else if i > w.len() {
                assert(s[i] == f[i - w.len() - 1]);
                assert(digits::is_digit(f[i - w.len() - 1]));
            } else {
                assert(s[i] == '.');
            }
        }
        no_space_trimmed(s);
        let at = w.len() as int;
        assert forall|i: int| 0 <= i < at implies s[i] != '.' by {
            assert(s[i] == w[i]);
            assert(digits::is_digit(w[i]));
        }
        assert(s[at] == '.');
        text::find_unique(s, '.', at);
        assert(s.take(at) =~= w);
        assert(s.skip(at + 1) =~= f);
    }
}

/// Text without white space is trimmed.
pub proof fn no_space_trimmed(s: Seq<char>)
    requires
        forall|i: int| 0 <= i < s.len() ==> !text::is_space(#[trigger] s[i]),
    ensures
        text::trimmed(s) == s,
{
    if s.len() > 0 {
        assert(!text::is_space(s[0]));
        assert(!text::is_space(s[s.len() - 1]));
    }
}

// ---------------------------------------------------------------------------
// Laws
// ---------------------------------------------------------------------------

/// An amount is worth what it says: the digits before the point count a
/// thousand million each, those behind it a tenth of that, a hundredth and so
/// on, and all of them together must fit 64 bits. Without a point there are no
/// digits behind it.
pub proof fn amounts_are_worth_what_they_say(w: Seq<char>, f: Seq<char>)
    requires
        forall|i: int| 0 <= i < w.len() ==> '0' <= #[trigger] w[i] <= '9',
        forall|i: int| 0 <= i < f.len() ==> '0' <= #[trigger] f[i] <= '9',
        f.len() <= 9,
    ensures
        ({
            let n = digits::digits_value(w) * 1_000_000_000 + digits::digits_value(f) * pow(
                10,
                (9 - f.len()) as nat,
            );
            &&& w.len() + f.len() > 0 ==> match amount(w + seq!['.'] + f) {
                Ok(m) => m == n && n <= 0xffff_ffff_ffff_ffff,
                Err(_) => n > 0xffff_ffff_ffff_ffff,
            }
            &&& w.len() > 0 ==> match amount(w) {
                Ok(m) => m == digits::digits_value(w) * 1_000_000_000 && m <= 0xffff_ffff_ffff_ffff,
                Err(_) => digits::digits_value(w) * 1_000_000_000 > 0xffff_ffff_ffff_ffff,
            }
        }),
{
    let s = w + seq!['.'] + f;
    let at = w.len() as int;
    assert forall|i: int| 0 <= i < s.len() implies !text::is_space(#[trigger] s[i]) by {
        if i < at {
            assert(s[i] == w[i]);
        } else if i > at {
            assert(s[i] == f[i - at - 1]);
        }
    }
    no_space_trimmed(s);
    no_space_trimmed(w);
    assert(!w.contains('.')) by {
        if w.contains('.') {
            let i = choose|i: int| 0 <= i < w.len() && w[i] == '.';
            assert(w[i] == '.');
        }
    }
    text::splits_at_the_first(w, '.', f);
    let e = Seq::<char>::empty();
    assert(digits::digits_value(e) == 0);
    assert(0 * pow(10, 9) == 0);
    assert(digits::all_digits(w) && digits::all_digits(f) && digits::all_digits(e));
    assert(NANO == 1_000_000_000);
    assert(text::split_at_first(s, '.') == Some((w, f)));
    assert(text::split_at_first(w, '.') is None);
    let fp = digits::digits_value(f) * pow(10, (9 - f.len()) as nat);
    lemma_pow_positive(10, (9 - f.len()) as nat);
    assert(fp >= 0) by (nonlinear_arith)
        requires
            fp == digits::digits_value(f) * pow(10, (9 - f.len()) as nat),
            pow(10, (9 - f.len()) as nat) > 0,
    ;
}

/// Anything else is refused: an amount holds digits and one point at most, at
/// least one digit or point, and at most nine digits behind the point.
pub proof fn other_amounts_are_refused(given: Seq<char>)
    requires
        amount(given) is Ok,
    ensures
        ({
            let s = text::trimmed(given);
            let at = text::find(s, '.');
            &&& s.len() > 0
            &&& forall|i: int|
                0 <= i < s.len() ==> i == at || '0' <= #[trigger] s[i] <= '9'
            &&& s.len() <= at + 10
        }),
{
    let s = text::trimmed(given);
    let at = text::find(s, '.');
    text::find_is_first(s, '.');
    assert forall|i: int| 0 <= i < s.len() implies i == at || '0' <= #[trigger] s[i] <= '9' by {
        if at < s.len() {
            if i < at {
                assert(digits::is_digit(s.take(at)[i]));
            } else if i > at {
                assert(digits::is_digit(s.skip(at + 1)[i - at - 1]));
            }
        } else {
            assert(digits::is_digit(s[i]));
        }
    }
}

/// An amount is written without a point where it is whole; else with one, and
/// without a zero at its end.
pub proof fn amounts_are_written_short(nano: u64)
    ensures
        grin_text(nano as nat).contains('.') <==> nano % 1_000_000_000 != 0,
        nano % 1_000_000_000 != 0 ==> grin_text(nano as nat).last() != '0',
        nano % 1_000_000_000 == 0 ==> grin_text(nano as nat) == digits::decimal(
            (nano / 1_000_000_000) as nat,
        ),
{
    let whole = (nano as nat) / (NANO as nat);
    let frac = (nano as nat) % (NANO as nat);
    let w = digits::decimal(whole);
    let s = grin_text(nano as nat);
    digits::decimal_round_trip(whole);
    ten_to_nine();
    if frac == 0 {
        if s.contains('.') {
            let i = choose|i: int| 0 <= i < s.len() && s[i] == '.';
            assert(digits::is_digit(w[i]));
        }
    } else {
        let p = digits::padded(frac, 9);
        digits::padded_round_trip(frac, 9);
        let f = text::without_trailing(p, '0');
        trailing_zeros(p);
        ends_otherwise(p, '0');
        assert(s[w.len() as int] == '.');
        assert(s.last() == f.last());
    }
}

proof fn ends_otherwise(s: Seq<char>, c: char)
    ensures
        text::without_trailing(s, c).len() > 0 ==> text::without_trailing(s, c).last() != c,
    decreases s.len(),
{
    if s.len() > 0 && s.last() == c {
        ends_otherwise(s.drop_last(), c);
    }
}

/// Why an amount is refused: for more than nine decimal places where it is all
/// digits otherwise, else for being none.
pub proof fn refused_amounts_say_why(given: Seq<char>, w: Seq<char>, f: Seq<char>)
    ensures
        amount(given) matches Err(e) ==> {
            let s = text::trimmed(given);
            ||| e == "invalid GRIN amount `"@ + s + "`"@
            ||| e == "`"@ + s + "` has more than 9 decimal places"@
        },
        text::trimmed(given) == w + seq!['.'] + f && (forall|i: int|
            0 <= i < w.len() ==> '0' <= #[trigger] w[i] <= '9') && (forall|i: int|
            0 <= i < f.len() ==> '0' <= #[trigger] f[i] <= '9') && f.len() > 9 ==> amount(given)
            == Err::<nat, Seq<char>>(
            "`"@ + text::trimmed(given) + "` has more than 9 decimal places"@,
        ),
{
    if text::trimmed(given) == w + seq!['.'] + f && (forall|i: int|
        0 <= i < w.len() ==> '0' <= #[trigger] w[i] <= '9') && (forall|i: int|
        0 <= i < f.len() ==> '0' <= #[trigger] f[i] <= '9') && f.len() > 9 {
        if w.contains('.') {
            let i = choose|i: int| 0 <= i < w.len() && w[i] == '.';
            assert(w[i] == '.');
        }
        text::splits_at_the_first(w, '.', f);
        assert(digits::all_digits(w) && digits::all_digits(f));
    }
}

} // verus!
