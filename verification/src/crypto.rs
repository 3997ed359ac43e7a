//! Hexadecimal, hashes and signatures, as the outside crates compute them.

use vstd::prelude::*;
use vstd::string::*;

verus! {

// ---------------------------------------------------------------------------
// Hexadecimal
// ---------------------------------------------------------------------------

/// A hexadecimal digit, small or capital.
pub open spec fn is_hex(c: char) -> bool {
    '0' <= c <= '9' || 'a' <= c <= 'f' || 'A' <= c <= 'F'
}

/// Whether `s` is made of hexadecimal digits alone.
pub open spec fn all_hex(s: Seq<char>) -> bool {
    forall|i: int| 0 <= i < s.len() ==> is_hex(#[trigger] s[i])
}

/// The number that a hexadecimal digit stands for.
pub open spec fn hex_value(c: char) -> int {
    if '0' <= c <= '9' {
        c as u32 - '0' as u32
    } else if 'a' <= c <= 'f' {
        c as u32 - 'a' as u32 + 10
    } else {
        c as u32 - 'A' as u32 + 10
    }
}

/// The small hexadecimal digit that stands for `d`.
pub open spec fn hex_digit(d: int) -> char {
    if d < 10 {
        (d + '0' as u32) as char
    } else {
        (d - 10 + 'a' as u32) as char
    }
}

/// The bytes that pairs of hexadecimal digits stand for.
pub open spec fn hex_bytes(s: Seq<char>) -> Option<Seq<u8>> {
    if s.len() % 2 == 0 && all_hex(s) {
        Some(
            Seq::new(
                s.len() / 2,
                |i: int| (hex_value(s[2 * i]) * 16 + hex_value(s[2 * i + 1])) as u8,
            ),
        )
    } else {
        None
    }
}

/// Bytes written as pairs of small hexadecimal digits.
pub open spec fn hex_text(bytes: Seq<u8>) -> Seq<char> {
    Seq::new(
        bytes.len() * 2,
        |i: int|
            if i % 2 == 0 {
                hex_digit(bytes[i / 2] as int / 16)
            } else {
                hex_digit(bytes[i / 2] as int % 16)
            },
    )
}

/// `hex::decode`: an even number of hexadecimal digits of either case gives
/// the bytes that they stand for; anything else is refused.
#[verifier::external_body]
pub(crate) fn hex_decode(s: &str) -> (r: Option<Vec<u8>>)
    ensures
        r is Some <==> hex_bytes(s@) is Some,
        r matches Some(b) ==> Some(b@) == hex_bytes(s@),
{
    hex::decode(s).ok()
}

/// `hex::encode`: two small hexadecimal digits for each byte.
#[verifier::external_body]
pub(crate) fn hex_encode(bytes: &[u8]) -> (s: String)
    requires
        bytes@.len() * 2 <= isize::MAX,
    ensures
        s@ == hex_text(bytes@),
{
    hex::encode(bytes)
}

// ---------------------------------------------------------------------------
// Hashes
// ---------------------------------------------------------------------------

/// The SHA-256 digest of a message.
pub uninterp spec fn sha256_of(message: Seq<u8>) -> Seq<u8>;

/// `sha2::Sha256::digest`: 32 bytes that the message decides.
#[verifier::external_body]
pub(crate) fn sha256(message: &[u8]) -> (digest: Vec<u8>)
    ensures
        digest@ == sha256_of(message@),
        digest@.len() == 32,
{
    let digest = <sha2::Sha256 as sha2::Digest>::digest(message);
    digest.to_vec()
}

/// The HMAC-SHA256 of a message under a key.
pub uninterp spec fn hmac_of(key: Seq<u8>, message: Seq<u8>) -> Seq<u8>;

/// `hmac::Hmac<Sha256>`, which takes a key of any length: 32 bytes that the
/// key and the message decide.
#[verifier::external_body]
pub(crate) fn hmac_sha256(key: &[u8], message: &[u8]) -> (code: Vec<u8>)
    ensures
        code@ == hmac_of(key@, message@),
        code@.len() == 32,
{
    let mut mac =
        <hmac::Hmac<sha2::Sha256> as hmac::Mac>::new_from_slice(key).expect("any key");
    hmac::Mac::update(&mut mac, message);
    hmac::Mac::finalize(mac).into_bytes().to_vec()
}

// ---------------------------------------------------------------------------
// Base64
// ---------------------------------------------------------------------------

/// The bytes that a text in base64 stands for, where it is one.
pub uninterp spec fn base64_bytes(s: Seq<char>) -> Option<Seq<u8>>;

/// The `STANDARD` engine of `base64`: which texts it reads, and the bytes that
/// it makes of them, is a function of the text.
#[verifier::external_body]
pub(crate) fn base64_decode(s: &str) -> (r: Option<Vec<u8>>)
    ensures
        r is Some <==> base64_bytes(s@) is Some,
        r matches Some(b) ==> base64_bytes(s@) == Some(b@),
{
    base64::Engine::decode(&base64::engine::general_purpose::STANDARD, s).ok()
}

// ---------------------------------------------------------------------------
// Signatures
// ---------------------------------------------------------------------------

/// Whether an ed25519 signature over a message holds under a public key. A key
/// that is no point of the curve signs nothing.
pub uninterp spec fn ed25519_holds(key: Seq<u8>, message: Seq<u8>, sig: Seq<u8>) -> bool;

/// `VerifyingKey::verify` of `ed25519_dalek`, the check that is not strict,
/// under the key that `VerifyingKey::from_bytes` reads.
#[verifier::external_body]
pub(crate) fn ed25519_verify(key: &[u8; 32], message: &[u8], sig: &[u8; 64]) -> (holds: bool)
    ensures
        holds == ed25519_holds(key@, message@, sig@),
{
    let signature = ed25519_dalek::Signature::from_bytes(sig);
    match ed25519_dalek::VerifyingKey::from_bytes(key) {
        Ok(vk) => ed25519_dalek::Verifier::verify(&vk, message, &signature).is_ok(),
        Err(_) => false,
    }
}

// ---------------------------------------------------------------------------
// Laws
// ---------------------------------------------------------------------------

/// Bytes written in hexadecimal read back as themselves, in capitals too, and
/// each byte takes the two digits of its value in base sixteen.
pub proof fn hexadecimal_round_trip(bytes: Seq<u8>)
    ensures
        hex_text(bytes).len() == 2 * bytes.len(),
        forall|i: int|
            0 <= i < bytes.len() ==> hex_text(bytes)[2 * i] == "0123456789abcdef"@[bytes[i] as int
                / 16] && #[trigger] hex_text(bytes)[2 * i + 1] == "0123456789abcdef"@[bytes[i] as int
                % 16],
        hex_bytes(hex_text(bytes)) == Some(bytes),
{
    reveal_strlit("0123456789abcdef");
    let s = hex_text(bytes);
    assert forall|d: int| 0 <= d < 16 implies hex_digit(d) == #[trigger] "0123456789abcdef"@[d]
        && hex_value(hex_digit(d)) == d && is_hex(hex_digit(d)) by {}
    assert forall|i: int| 0 <= i < bytes.len() implies s[2 * i] == hex_digit(bytes[i] as int / 16)
        && #[trigger] s[2 * i + 1] == hex_digit(bytes[i] as int % 16) by {
        assert((2 * i) / 2 == i && (2 * i + 1) / 2 == i);
    }
    assert forall|i: int| 0 <= i < bytes.len() implies hex_text(bytes)[2 * i]
        == "0123456789abcdef"@[bytes[i] as int / 16] && #[trigger] hex_text(bytes)[2 * i + 1]
        == "0123456789abcdef"@[bytes[i] as int % 16] by {
        assert(s[2 * i + 1] == hex_digit(bytes[i] as int % 16));
    }
    assert forall|k: int| 0 <= k < s.len() implies is_hex(#[trigger] s[k]) by {
        let i = k / 2;
        assert("0123456789abcdef"@[bytes[i] as int / 16] == hex_digit(bytes[i] as int / 16));
        assert("0123456789abcdef"@[bytes[i] as int % 16] == hex_digit(bytes[i] as int % 16));
        assert(s[2 * i + 1] == hex_digit(bytes[i] as int % 16));
    }
    assert forall|i: int| 0 <= i < bytes.len() implies #[trigger] hex_bytes(s)->0[i] == bytes[i] by {
        assert(s[2 * i + 1] == hex_digit(bytes[i] as int % 16));
        assert("0123456789abcdef"@[bytes[i] as int / 16] == hex_digit(bytes[i] as int / 16));
        assert("0123456789abcdef"@[bytes[i] as int % 16] == hex_digit(bytes[i] as int % 16));
    }
    assert(hex_bytes(s)->0 =~= bytes);
}

/// Hexadecimal text is read in pairs of digits, of either case; text of an odd
/// length or with any other character is none.
pub proof fn hexadecimal_is_read(s: Seq<char>)
    ensures
        hex_bytes(s) is Some <==> s.len() % 2 == 0 && forall|i: int|
            0 <= i < s.len() ==> '0' <= #[trigger] s[i] <= '9' || 'a' <= s[i] <= 'f'
                || 'A' <= s[i] <= 'F',
        hex_bytes(s) matches Some(b) ==> b.len() * 2 == s.len(),
        all_hex(s) <==> forall|i: int|
            0 <= i < s.len() ==> '0' <= #[trigger] s[i] <= '9' || 'a' <= s[i] <= 'f'
                || 'A' <= s[i] <= 'F',
{
    if all_hex(s) {
        assert forall|i: int| 0 <= i < s.len() implies '0' <= #[trigger] s[i] <= '9' || 'a' <= s[i] <= 'f' || 'A' <= s[i] <= 'F' by {
            assert(is_hex(s[i]));
        }
    } else if forall|i: int|
        0 <= i < s.len() ==> '0' <= #[trigger] s[i] <= '9' || 'a' <= s[i] <= 'f' || 'A' <= s[i] <= 'F' {
        assert forall|i: int| 0 <= i < s.len() implies is_hex(#[trigger] s[i]) by {}
    }
}

} // verus!
