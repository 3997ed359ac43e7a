//! Grin slatepack addresses.

use crate::amount;
use crate::text;
use crate::text::{same, to_lower, trim};
use vstd::prelude::*;
use vstd::string::*;

verus! {

// ---------------------------------------------------------------------------
// Bech32
// ---------------------------------------------------------------------------

/// A human-readable part that bech32 takes: 1 to 83 printable ASCII
/// characters, letters of one case.
pub open spec fn valid_hrp(hrp: Seq<char>) -> bool {
    &&& 1 <= hrp.len() <= 83
    &&& forall|i: int| 0 <= i < hrp.len() ==> 33 <= (#[trigger] hrp[i] as u32) <= 126
    &&& !(exists|i: int, j: int|
        0 <= i < hrp.len() && 0 <= j < hrp.len() && 'a' <= #[trigger] hrp[i] <= 'z'
            && 'A' <= #[trigger] hrp[j] <= 'Z')
}

/// Numbers of five bits.
pub open spec fn five_bits(groups: Seq<u8>) -> bool {
    forall|i: int| 0 <= i < groups.len() ==> #[trigger] groups[i] < 32
}

/// What a bech32 text holds, where it is one: the human-readable part, the
/// five-bit groups without the checksum, and whether the checksum is that of
/// classic bech32 (and not of bech32m).
pub uninterp spec fn bech32_parts(s: Seq<char>) -> Option<(Seq<char>, Seq<u8>, bool)>;

/// The classic bech32 text of a human-readable part and five-bit groups.
pub uninterp spec fn bech32_text(hrp: Seq<char>, groups: Seq<u8>) -> Seq<char>;

/// The letters and digits for five-bit groups.
pub open spec fn letters(groups: Seq<u8>) -> Seq<char> {
    Seq::new(groups.len(), |i: int| "qpzry9x8gf2tvdw0s3jn54khce6mua7l"@[groups[i] as int])
}

/// A bech32 text up to its checksum: the human-readable part in small letters,
/// the separator, and the groups.
pub open spec fn bech32_head(hrp: Seq<char>, groups: Seq<u8>) -> Seq<char> {
    text::lower(hrp) + "1"@ + letters(groups)
}

/// Printable ASCII without blanks and capitals.
pub open spec fn is_small(s: Seq<char>) -> bool {
    forall|i: int|
        0 <= i < s.len() ==> 33 <= (#[trigger] s[i] as u32) <= 126 && !('A' <= s[i] <= 'Z')
}

/// `bech32::decode`: what it makes of a text is a function of the text, and
/// the groups have five bits.
#[verifier::external_body]
fn bech32_decode(s: &str) -> (r: Option<(String, Vec<u8>, bool)>)
    ensures
        r is Some <==> bech32_parts(s@) is Some,
        r matches Some((hrp, groups, classic)) ==> bech32_parts(s@) == Some(
            (hrp@, groups@, classic),
        ),
        r matches Some((hrp, groups, classic)) ==> five_bits(groups@),
{
    let (hrp, data, variant) = bech32::decode(s).ok()?;
    let classic = match variant {
        bech32::Variant::Bech32 => true,
        bech32::Variant::Bech32m => false,
    };
    Some((hrp, data.into_iter().map(|g| g.to_u8()).collect(), classic))
}

/// `bech32::encode` with the classic checksum: refused only where the
/// human-readable part is. The text is the part in small letters, the
/// separator, a letter or digit for each group, and a checksum of six more; it
/// has no capitals. `bech32::decode` gives back the part, in small letters, and
/// the groups.
#[verifier::external_body]
fn bech32_encode(hrp: &str, groups: &[u8]) -> (r: Option<String>)
    requires
        five_bits(groups@),
    ensures
        r is Some <==> valid_hrp(hrp@),
        r matches Some(s) ==> s@ == bech32_text(hrp@, groups@),
        r matches Some(s) ==> bech32_head(hrp@, groups@).is_prefix_of(s@),
        r matches Some(s) ==> s@.len() == bech32_head(hrp@, groups@).len() + 6,
        r matches Some(s) ==> is_small(s@),
        r matches Some(s) ==> bech32_parts(s@) == Some((text::lower(hrp@), groups@, true)),
{
    let data: Vec<bech32::u5> = groups
        .iter()
        .map(|g| bech32::u5::try_from_u8(*g).expect("five bits"))
        .collect();
    bech32::encode(hrp, data, bech32::Variant::Bech32).ok()
}

// ---------------------------------------------------------------------------
// Bits
// ---------------------------------------------------------------------------

/// Whether the bit at `place` is set, counted from the lowest.
pub open spec fn bit(b: u8, place: int) -> bool {
    (b >> place) & 1u8 == 1u8
}

/// The bits of bytes, the highest of each first.
pub open spec fn byte_bits(bytes: Seq<u8>) -> Seq<bool> {
    Seq::new(8 * bytes.len(), |k: int| bit(bytes[k / 8], 7 - k % 8))
}

/// The bits of five-bit groups, the highest of each first.
pub open spec fn group_bits(groups: Seq<u8>) -> Seq<bool> {
    Seq::new(5 * groups.len(), |k: int| bit(groups[k / 5], 4 - k % 5))
}

/// The number that bits stand for, the highest first.
pub open spec fn number(bits: Seq<bool>) -> int
    decreases bits.len(),
{
    if bits.len() == 0 {
        0
    } else {
        2 * number(bits.drop_last()) + if bits.last() {
            1int
        } else {
            0int
        }
    }
}

/// Bytes in groups of five bits, the last one filled with zeros.
pub open spec fn base32_groups(bytes: Seq<u8>) -> Seq<u8> {
    let bits = byte_bits(bytes);
    let count = (bits.len() + 4) / 5;
    let filled = Seq::new(5 * count, |k: int| k < bits.len() && bits[k]);
    Seq::new(count, |i: int| number(filled.subrange(5 * i, 5 * i + 5)) as u8)
}

/// The bytes that five-bit groups hold, where less than a group is left over
/// and nothing but zeros.
pub open spec fn base32_bytes(groups: Seq<u8>) -> Option<Seq<u8>> {
    let bits = group_bits(groups);
    let count = bits.len() / 8;
    if bits.len() % 8 < 5 && (forall|k: int| 8 * count <= k < bits.len() ==> !#[trigger] bits[k]) {
        Some(Seq::new(count, |i: int| number(bits.subrange(8 * i, 8 * i + 8)) as u8))
    } else {
        None
    }
}

/// `ToBase32` for bytes: five-bit groups.
#[verifier::external_body]
fn base32_pack(bytes: &[u8]) -> (groups: Vec<u8>)
    ensures
        groups@ == base32_groups(bytes@),
{
    let groups = bech32::ToBase32::to_base32(&bytes);
    groups.into_iter().map(|g| g.to_u8()).collect()
}

/// `FromBase32` for bytes: the bytes in five-bit groups, refused where a whole
/// group or a bit that is set is left over.
#[verifier::external_body]
fn base32_unpack(groups: &[u8]) -> (r: Option<Vec<u8>>)
    requires
        five_bits(groups@),
    ensures
        r is Some <==> base32_bytes(groups@) is Some,
        r matches Some(b) ==> base32_bytes(groups@) == Some(b@),
{
    let data: Vec<bech32::u5> = groups
        .iter()
        .map(|g| bech32::u5::try_from_u8(*g).expect("five bits"))
        .collect();
    <Vec<u8> as bech32::FromBase32>::from_base32(&data).ok()
}

/// Five bits stand for a number of five bits, which has them.
proof fn number_of_five(bits: Seq<bool>)
    requires
        bits.len() == 5,
    ensures
        0 <= number(bits) < 32,
        forall|j: int| 0 <= j < 5 ==> bit(number(bits) as u8, 4 - j) == #[trigger] bits[j],
{
    let (a, b, c, d, e) = (bits[0], bits[1], bits[2], bits[3], bits[4]);
    let v: u8 = number(bits) as u8;
    reveal_with_fuel(number, 6);
    assert(number(bits) == (if a { 16int } else { 0 }) + (if b { 8int } else { 0 }) + (if c {
        4int
    } else {
        0
    }) + (if d { 2int } else { 0 }) + (if e { 1int } else { 0 }));
    assert(((v >> 4) & 1 == 1) == a && ((v >> 3) & 1 == 1) == b && ((v >> 2) & 1 == 1) == c && ((v
        >> 1) & 1 == 1) == d && ((v >> 0) & 1 == 1) == e) by (bit_vector)
        requires
            v == (if a { 16u8 } else { 0u8 }) + (if b { 8u8 } else { 0u8 }) + (if c {
                4u8
            } else {
                0u8
            }) + (if d { 2u8 } else { 0u8 }) + (if e { 1u8 } else { 0u8 }),
    ;
    assert(bit(v, 4) == a && bit(v, 3) == b && bit(v, 2) == c && bit(v, 1) == d && bit(v, 0) == e);
}

/// The eight bits of a byte stand for it.
proof fn number_of_eight(bits: Seq<bool>, v: u8)
    requires
        bits.len() == 8,
        forall|j: int| 0 <= j < 8 ==> #[trigger] bits[j] == bit(v, 7 - j),
    ensures
        number(bits) == v,
{
    reveal_with_fuel(number, 9);
    assert(bits[0] == bit(v, 7) && bits[1] == bit(v, 6) && bits[2] == bit(v, 5) && bits[3] == bit(
        v,
        4,
    ) && bits[4] == bit(v, 3) && bits[5] == bit(v, 2) && bits[6] == bit(v, 1) && bits[7] == bit(
        v,
        0,
    ));
    assert(v == (if (v >> 7) & 1 == 1 { 128u8 } else { 0u8 }) + (if (v >> 6) & 1 == 1 {
        64u8
    } else {
        0u8
    }) + (if (v >> 5) & 1 == 1 { 32u8 } else { 0u8 }) + (if (v >> 4) & 1 == 1 {
        16u8
    } else {
        0u8
    }) + (if (v >> 3) & 1 == 1 { 8u8 } else { 0u8 }) + (if (v >> 2) & 1 == 1 {
        4u8
    } else {
        0u8
    }) + (if (v >> 1) & 1 == 1 { 2u8 } else { 0u8 }) + (if (v >> 0) & 1 == 1 {
        1u8
    } else {
        0u8
    })) by (bit_vector);
}

/// Bytes come back from the five-bit groups that they are put into.
pub proof fn base32_round_trip(bytes: Seq<u8>)
    ensures
        five_bits(base32_groups(bytes)),
        base32_bytes(base32_groups(bytes)) == Some(bytes),
{
    let bits = byte_bits(bytes);
    let groups = base32_groups(bytes);
    let filled = Seq::new(5 * groups.len(), |k: int| k < bits.len() && bits[k]);
    assert forall|i: int| 0 <= i < groups.len() implies #[trigger] groups[i] < 32 && groups[i]
        == number(filled.subrange(5 * i, 5 * i + 5)) by {
        number_of_five(filled.subrange(5 * i, 5 * i + 5));
    }
    let back = group_bits(groups);
    assert forall|k: int| 0 <= k < back.len() implies #[trigger] back[k] == filled[k] by {
        let i = k / 5;
        let five = filled.subrange(5 * i, 5 * i + 5);
        assert(groups[i] < 32);
        number_of_five(five);
        assert(five[k % 5] == filled[k]);
    }
    assert(back =~= filled);
    assert(back.len() / 8 == bytes.len());
    assert forall|i: int| 0 <= i < bytes.len() implies number(back.subrange(8 * i, 8 * i + 8))
        == #[trigger] bytes[i] by {
        let eight = back.subrange(8 * i, 8 * i + 8);
        assert forall|j: int| 0 <= j < 8 implies #[trigger] eight[j] == bit(bytes[i], 7 - j) by {
            assert(eight[j] == filled[8 * i + j]);
            assert(filled[8 * i + j] == bits[8 * i + j]);
            assert((8 * i + j) / 8 == i && (8 * i + j) % 8 == j);
        }
        number_of_eight(eight, bytes[i]);
    }
    assert(base32_bytes(groups)->0 =~= bytes);
}

// ---------------------------------------------------------------------------
// Addresses
// ---------------------------------------------------------------------------

/// An address as it is compared: trimmed and in lower case.
pub open spec fn normal_address(address: Seq<char>) -> Seq<char> {
    text::lower(text::trimmed(address))
}

/// The human-readable parts of Grin addresses, on the main and the test
/// network.
pub open spec fn is_grin_hrp(hrp: Seq<char>) -> bool {
    hrp == "grin"@ || hrp == "tgrin"@
}

/// The public key in a slatepack address, where it is one.
pub open spec fn address_key(address: Seq<char>) -> Option<Seq<u8>> {
    match bech32_parts(normal_address(address)) {
        Some((hrp, groups, classic)) => if is_grin_hrp(hrp) && classic {
            match base32_bytes(groups) {
                Some(bytes) => if bytes.len() == 32 {
                    Some(bytes)
                } else {
                    None
                },
                None => None,
            }
        } else {
            None
        },
        None => None,
    }
}

/// An address as it is compared: trimmed and in lower case.
pub fn normalize_grin_address(address: &str) -> (s: String)
    ensures
        s@ == normal_address(address@),
{
    to_lower(trim(address))
}

/// The 32-byte ed25519 public key in a `grin1`/`tgrin1` slatepack address, or
/// `None` where it is no such address. Classic bech32 counts, bech32m does
/// not.
pub fn decode_grin_address(address: &str) -> (key: Option<[u8; 32]>)
    ensures
        match (key, address_key(address@)) {
            (Some(k), Some(s)) => k@ == s,
            (None, None) => true,
            _ => false,
        },
{
    let norm = normalize_grin_address(address);
    match bech32_decode(norm.as_str()) {
        Some((hrp, groups, classic)) => {
            if !classic || !(same(hrp.as_str(), "grin") || same(hrp.as_str(), "tgrin")) {
                return None;
            }
            match base32_unpack(groups.as_slice()) {
                Some(bytes) => array_32(bytes.as_slice()),
                None => None,
            }
        },
        None => None,
    }
}

/// The bytes as an array, where there are 32 of them.
pub(crate) fn array_32(bytes: &[u8]) -> (r: Option<[u8; 32]>)
    ensures
        r is Some <==> bytes@.len() == 32,
        r matches Some(a) ==> a@ == bytes@,
{
    if bytes.len() != 32 {
        return None;
    }
    let mut a: [u8; 32] = [0u8; 32];
    let mut i: usize = 0;
    while i < 32
        invariant
            i <= 32,
            bytes@.len() == 32,
            a@.len() == 32,
            forall|j: int| 0 <= j < i ==> a@[j] == bytes@[j],
        decreases 32 - i,
    {
        a[i] = bytes[i];
        i = i + 1;
    }
    assert(a@ =~= bytes@);
    Some(a)
}

/// Whether `t` is `s` with any of its letters capital and white space around it.
pub open spec fn is_spelling(t: Seq<char>, s: Seq<char>) -> bool {
    let inner = text::trimmed(t);
    &&& inner.len() == s.len()
    &&& forall|i: int|
        0 <= i < s.len() ==> #[trigger] inner[i] == s[i] || ('A' <= inner[i] <= 'Z' && s[i]
            == text::ascii_lower(inner[i]))
}

/// The slatepack address of a 32-byte ed25519 public key under a
/// human-readable part that bech32 takes. It starts with the part in small
/// letters and `1`. A `grin` or `tgrin` address decodes to the key, in capitals
/// and with white space around it too; an address under any other part decodes
/// to nothing.
pub fn grin_address_from_pubkey(pubkey: &[u8; 32], hrp: &str) -> (address: String)
    requires
        valid_hrp(hrp@),
    ensures
        address@ == bech32_text(hrp@, base32_groups(pubkey@)),
        (text::lower(hrp@) + "1"@).is_prefix_of(address@),
        bech32_head(hrp@, base32_groups(pubkey@)).is_prefix_of(address@),
        address@.len() == hrp@.len() + 59,
        is_small(address@),
        address_key(address@) == if is_grin_hrp(text::lower(hrp@)) {
            Some(pubkey@)
        } else {
            None
        },
        forall|t: Seq<char>| #[trigger]
            is_spelling(t, address@) ==> address_key(t) == address_key(address@),
{
    let groups = base32_pack(pubkey.as_slice());
    proof {
        base32_round_trip(pubkey@);
    }
    match bech32_encode(hrp, groups.as_slice()) {
        Some(address) => {
            proof {
                let s = address@;
                let head = bech32_head(hrp@, groups@);
                reveal_strlit("1");
                assert((text::lower(hrp@) + "1"@).is_prefix_of(s)) by {
                    let n = hrp@.len() + 1int;
                    assert(head.take(n) =~= text::lower(hrp@) + "1"@);
                    assert(s.take(n) =~= s.take(head.len() as int).take(n));
                }
                small_is_normal(s);
                assert forall|t: Seq<char>| #[trigger] is_spelling(t, s) implies address_key(t)
                    == address_key(s) by {
                    spelling_is_normal(t, s);
                }
            }
            address
        },
        None => String::new(),
    }
}

// ---------------------------------------------------------------------------
// Laws
// ---------------------------------------------------------------------------

/// Text without blanks and capitals is compared as it is.
proof fn small_is_normal(s: Seq<char>)
    requires
        is_small(s),
    ensures
        normal_address(s) == s,
{
    assert forall|i: int| 0 <= i < s.len() implies !text::is_space(#[trigger] s[i]) && (s[i] as u32)
        < 128 && !('A' <= s[i] <= 'Z') by {}
    amount::no_space_trimmed(s);
    text::lower_keeps(s);
}

/// Every spelling of such a text is compared as it.
proof fn spelling_is_normal(t: Seq<char>, s: Seq<char>)
    requires
        is_small(s),
        is_spelling(t, s),
    ensures
        normal_address(t) == s,
{
    let inner = text::trimmed(t);
    assert(text::all_ascii(inner)) by {
        assert forall|i: int| 0 <= i < inner.len() implies (#[trigger] inner[i] as u32) < 128 by {
            assert(33 <= (s[i] as u32) <= 126);
        }
    }
    assert forall|i: int| 0 <= i < s.len() implies text::ascii_lower(#[trigger] inner[i]) == s[i] by {
        assert(33 <= (s[i] as u32) <= 126);
    }
    assert(text::lower(inner) =~= s);
}

/// Capitals and surrounding white space do not matter to an address: with any
/// of its letters capital, and white space before and behind it, it is compared
/// as the same and decodes to the same.
pub proof fn spellings_decode_alike(
    before: Seq<char>,
    t: Seq<char>,
    after: Seq<char>,
    address: Seq<char>,
)
    requires
        is_small(address),
        t.len() == address.len(),
        forall|i: int|
            0 <= i < t.len() ==> #[trigger] t[i] == address[i] || ('A' <= t[i] <= 'Z' && address[i]
                == text::ascii_lower(t[i])),
        forall|i: int| 0 <= i < before.len() ==> text::is_space(#[trigger] before[i]),
        forall|i: int| 0 <= i < after.len() ==> text::is_space(#[trigger] after[i]),
    ensures
        is_spelling(before + t + after, address),
        normal_address(before + t + after) == address,
        address_key(before + t + after) == address_key(address),
{
    assert forall|i: int| 0 <= i < t.len() implies !text::is_space(#[trigger] t[i]) by {
        assert(33 <= (address[i] as u32) <= 126);
    }
    text::space_around_goes(before, t, after);
    assert(is_spelling(before + t + after, address));
    spelling_is_normal(before + t + after, address);
    small_is_normal(address);
}

/// An address is a Grin address exactly where, trimmed and in lower case, it is
/// classic bech32 under `grin` or `tgrin` with 32 bytes in it; those are its
/// key.
pub proof fn addresses_hold_their_key(
    address: Seq<char>,
    hrp: Seq<char>,
    groups: Seq<u8>,
    classic: bool,
    bytes: Seq<u8>,
)
    requires
        bech32_parts(text::lower(text::trimmed(address))) == Some((hrp, groups, classic)),
        base32_bytes(groups) == Some(bytes),
    ensures
        normal_address(address) == text::lower(text::trimmed(address)),
        classic && (hrp == "grin"@ || hrp == "tgrin"@) && bytes.len() == 32 ==> address_key(address)
            == Some(bytes),
        !(classic && (hrp == "grin"@ || hrp == "tgrin"@) && bytes.len() == 32) ==> address_key(
            address,
        ) is None,
{
}

/// What is no bech32, or holds no whole bytes, is no address.
pub proof fn other_texts_are_no_address(address: Seq<char>)
    ensures
        normal_address(address) == text::lower(text::trimmed(address)),
        match bech32_parts(text::lower(text::trimmed(address))) {
            None => address_key(address) is None,
            Some((hrp, groups, classic)) => base32_bytes(groups) is None ==> address_key(address)
                is None,
        },
{
}

} // verus!
