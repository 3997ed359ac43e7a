//! What a name and a public key look like.

use crate::text;
use crate::text::{chars_of, split, to_lower};
use vstd::prelude::*;
use vstd::string::*;

verus! {

/// A lower-case letter or a digit.
pub open spec fn is_alnum(c: char) -> bool {
    'a' <= c <= 'z' || '0' <= c <= '9'
}

/// A character that a name may hold.
pub open spec fn is_name_char(c: char) -> bool {
    is_alnum(c) || c == '.' || c == '_' || c == '-'
}

/// A name: `min` to `max` characters out of `a-z0-9._-`, the first and the
/// last of them a letter or a digit.
pub open spec fn is_name(s: Seq<char>, min: int, max: int) -> bool {
    &&& min <= s.len() <= max
    &&& s.len() > 0
    &&& forall|i: int| 0 <= i < s.len() ==> is_name_char(#[trigger] s[i])
    &&& is_alnum(s[0])
    &&& is_alnum(s.last())
}

/// A lower-case hexadecimal digit.
pub open spec fn is_lower_hex(c: char) -> bool {
    '0' <= c <= '9' || 'a' <= c <= 'f'
}

/// A public key in hexadecimal: 64 lower-case digits.
pub open spec fn is_pubkey_hex(s: Seq<char>) -> bool {
    &&& s.len() == 64
    &&& forall|i: int| 0 <= i < s.len() ==> is_lower_hex(#[trigger] s[i])
}

fn alnum(c: char) -> (b: bool)
    ensures
        b == is_alnum(c),
{
    ('a' <= c && c <= 'z') || ('0' <= c && c <= '9')
}

/// Whether `name` is a name of `min` to `max` characters.
pub fn valid_name(name: &str, min: usize, max: usize) -> (valid: bool)
    ensures
        valid == is_name(name@, min as int, max as int),
{
    let v = chars_of(name);
    if v.len() == 0 || v.len() < min || v.len() > max {
        return false;
    }
    if !alnum(v[0]) || !alnum(v[v.len() - 1]) {
        return false;
    }
    let mut i: usize = 0;
    while i < v.len()
        invariant
            i <= v.len(),
            v@ == name@,
            forall|j: int| 0 <= j < i ==> is_name_char(#[trigger] v@[j]),
        decreases v.len() - i,
    {
        let c = v[i];
        if !(alnum(c) || c == '.' || c == '_' || c == '-') {
            assert(!is_name_char(name@[i as int]));
            return false;
        }
        i = i + 1;
    }
    true
}

/// Whether `key` is a public key in lower-case hexadecimal.
pub fn valid_pubkey_hex(key: &str) -> (valid: bool)
    ensures
        valid == is_pubkey_hex(key@),
{
    let v = chars_of(key);
    if v.len() != 64 {
        return false;
    }
    let mut i: usize = 0;
    while i < v.len()
        invariant
            i <= v.len(),
            v@ == key@,
            forall|j: int| 0 <= j < i ==> is_lower_hex(#[trigger] v@[j]),
        decreases v.len() - i,
    {
        let c = v[i];
        if !(('0' <= c && c <= '9') || ('a' <= c && c <= 'f')) {
            assert(!is_lower_hex(key@[i as int]));
            return false;
        }
        i = i + 1;
    }
    true
}

/// The labels of a domain that its operator keeps: all but the last.
pub open spec fn own_labels(domain: Seq<char>) -> Seq<Seq<char>> {
    text::pieces(text::lower(domain), '.').drop_last()
}

/// There is always a piece.
pub proof fn pieces_not_empty(s: Seq<char>, c: char)
    ensures
        text::pieces(s, c).len() > 0,
{
}

/// The labels of `domain` that its operator keeps, so that nobody can claim
/// the brand that the domain stands for: `floonet` for `floonet.example`.
pub fn domain_reserved(domain: &str) -> (labels: Vec<String>)
    ensures
        text::views(labels@) == own_labels(domain@),
{
    let folded = to_lower(domain);
    let mut labels = split(folded.as_str(), '.');
    proof {
        pieces_not_empty(folded@, '.');
        assert(text::views(labels@).len() == labels@.len());
    }
    let ghost all = labels@;
    let _ = labels.pop();
    assert(text::views(labels@) =~= text::views(all).drop_last());
    labels
}

// ---------------------------------------------------------------------------
// Laws
// ---------------------------------------------------------------------------

/// A name holds small letters, digits, points, underscores and dashes, starts
/// and ends with a letter or a digit, and has a length between the bounds; and
/// whatever is so is a name.
pub proof fn names_look_so(s: Seq<char>, min: int, max: int)
    ensures
        is_name(s, min, max) <==> {
            &&& s.len() >= 1 && s.len() >= min && s.len() <= max
            &&& forall|i: int|
                0 <= i < s.len() ==> ('a' <= #[trigger] s[i] <= 'z' || '0' <= s[i] <= '9' || ((s[i] == '.' || s[i] == '_' || s[i] == '-') && 0 < i < s.len() - 1))
        },
{
    if is_name(s, min, max) {
        assert forall|i: int| 0 <= i < s.len() implies ('a' <= #[trigger] s[i] <= 'z' || '0' <= s[i] <= '9' || ((s[i] == '.' || s[i] == '_' || s[i] == '-') && 0 < i
            < s.len() - 1)) by {
            assert(is_name_char(s[i]));
        }
    } else if s.len() >= 1 && s.len() >= min && s.len() <= max && forall|i: int|
        0 <= i < s.len() ==> ('a' <= #[trigger] s[i] <= 'z' || '0' <= s[i] <= '9' || ((
        s[i] == '.' || s[i] == '_' || s[i] == '-') && 0 < i < s.len() - 1)) {
        assert forall|i: int| 0 <= i < s.len() implies is_name_char(#[trigger] s[i]) by {}
        assert(is_alnum(s[0]));
        assert(is_alnum(s[s.len() - 1]));
    }
}

/// A key is 64 digits out of `0123456789abcdef`, and whatever is so is one.
pub proof fn keys_look_so(s: Seq<char>)
    ensures
        is_pubkey_hex(s) <==> s.len() == 64 && forall|i: int|
            0 <= i < s.len() ==> '0' <= #[trigger] s[i] <= '9' || 'a' <= s[i] <= 'f',
{
    if is_pubkey_hex(s) {
        assert forall|i: int| 0 <= i < s.len() implies '0' <= #[trigger] s[i] <= '9' || 'a' <= s[i] <= 'f' by {
            assert(is_lower_hex(s[i]));
        }
    } else if s.len() == 64 && forall|i: int|
        0 <= i < s.len() ==> '0' <= #[trigger] s[i] <= '9' || 'a' <= s[i] <= 'f' {
        assert forall|i: int| 0 <= i < s.len() implies is_lower_hex(#[trigger] s[i]) by {}
    }
}

/// A label before a point is kept, and so are all but the last behind it; a
/// domain of one label keeps none.
pub proof fn labels_are_kept(label: Seq<char>, rest: Seq<char>)
    requires
        !label.contains('.'),
        text::lower(label) == label,
        text::lower(rest) == rest,
        text::lower(label + seq!['.'] + rest) == label + seq!['.'] + rest,
    ensures
        own_labels(label) == Seq::<Seq<char>>::empty(),
        own_labels(label + seq!['.'] + rest) == seq![label] + own_labels(rest),
        forall|domain: Seq<char>|
            text::lower(domain) == rest ==> #[trigger] own_labels(domain) == own_labels(rest),
{
    text::splits_at_every_one(label, '.', rest);
    pieces_not_empty(rest, '.');
    assert(seq![label].drop_last() =~= Seq::<Seq<char>>::empty());
    let all = seq![label] + text::pieces(rest, '.');
    assert(all.drop_last() =~= seq![label] + text::pieces(rest, '.').drop_last());
}

} // verus!
