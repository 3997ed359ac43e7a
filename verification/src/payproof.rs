//! Grin payment proofs: what the payer and the payee of a transfer signed.
//!
//! Both sign the same 73 bytes: the amount as a big-endian 64-bit number, the
//! 33-byte kernel excess, and the sender's 32-byte public key. A transfer
//! claim needs both signatures.

use crate::address;
use crate::crypto;
use crate::crypto::{ed25519_verify, hex_decode};
use crate::digits;
use crate::digits::parse_u64;
use crate::json;
use crate::json::{get, get_text, node, Node};
use crate::text;
use crate::text::{to_lower, trim};
use vstd::arithmetic::power::*;
use vstd::prelude::*;
use vstd::string::*;

pub use crate::address::{decode_grin_address, grin_address_from_pubkey, normalize_grin_address};

verus! {

// ---------------------------------------------------------------------------
// The signed message
// ---------------------------------------------------------------------------

/// A 64-bit number as eight bytes, the most significant first.
pub open spec fn be_bytes(n: u64) -> Seq<u8> {
    Seq::new(8, |i: int| ((n as int / pow(256, (7 - i) as nat)) % 256) as u8)
}

/// The 73 bytes that both parties sign, where the excess is 33 bytes long.
pub open spec fn message(amount: u64, excess_hex: Seq<char>, sender: Seq<u8>) -> Option<Seq<u8>> {
    match crypto::hex_bytes(excess_hex) {
        Some(excess) => if excess.len() == 33 {
            Some(be_bytes(amount) + excess + sender)
        } else {
            None
        },
        None => None,
    }
}

proof fn powers_of_256()
    ensures
        pow(256, 0) == 1,
        pow(256, 1) == 0x100,
        pow(256, 2) == 0x1_0000,
        pow(256, 3) == 0x100_0000,
        pow(256, 4) == 0x1_0000_0000,
        pow(256, 5) == 0x100_0000_0000,
        pow(256, 6) == 0x1_0000_0000_0000,
        pow(256, 7) == 0x100_0000_0000_0000,
{
    reveal_with_fuel(pow, 8);
}

/// The amount of a payment as the signed message holds it: eight bytes, the
/// most significant first.
pub fn amount_to_be_u64(amount: u64) -> (bytes: [u8; 8])
    ensures
        bytes@ == be_bytes(amount),
{
    proof {
        powers_of_256();
    }
    let bytes: [u8; 8] = [
        (amount / 0x100_0000_0000_0000 % 256) as u8,
        (amount / 0x1_0000_0000_0000 % 256) as u8,
        (amount / 0x100_0000_0000 % 256) as u8,
        (amount / 0x1_0000_0000 % 256) as u8,
        (amount / 0x100_0000 % 256) as u8,
        (amount / 0x1_0000 % 256) as u8,
        (amount / 0x100 % 256) as u8,
        (amount % 256) as u8,
    ];
    assert(bytes@ =~= be_bytes(amount));
    bytes
}

/// The exact bytes that the recipient and the sender sign: the amount, the
/// excess and the sender's key. `None` where the excess is not 33 bytes in
/// hexadecimal.
pub fn payment_proof_message(
    amount: u64,
    excess_hex: &str,
    sender_pubkey: &[u8; 32],
) -> (msg: Option<Vec<u8>>)
    ensures
        match (msg, message(amount, excess_hex@, sender_pubkey@)) {
            (Some(m), Some(s)) => m@ == s && m@.len() == 73,
            (None, None) => true,
            _ => false,
        },
{
    let excess = match hex_decode(excess_hex) {
        Some(e) => e,
        None => {
            return None;
        },
    };
    if excess.len() != 33 {
        return None;
    }
    let amount_bytes = amount_to_be_u64(amount);
    let mut msg: Vec<u8> = Vec::with_capacity(73);
    msg.extend_from_slice(amount_bytes.as_slice());
    msg.extend_from_slice(excess.as_slice());
    msg.extend_from_slice(sender_pubkey.as_slice());
    assert(msg@ =~= be_bytes(amount) + excess@ + sender_pubkey@);
    Some(msg)
}

// ---------------------------------------------------------------------------
// Parsing
// ---------------------------------------------------------------------------

/// A Grin payment proof: the six fields that a wallet exports.
#[derive(Debug, Clone)]
pub struct ParsedPaymentProof {
    /// Amount in nanogrin.
    pub amount: u64,
    /// Kernel excess in hexadecimal, lower case.
    pub excess_hex: String,
    pub recipient_address: String,
    pub recipient_sig_hex: String,
    pub sender_address: String,
    pub sender_sig_hex: String,
}

/// What a [`ParsedPaymentProof`] holds.
pub struct ProofView {
    pub amount: u64,
    pub excess_hex: Seq<char>,
    pub recipient_address: Seq<char>,
    pub recipient_sig_hex: Seq<char>,
    pub sender_address: Seq<char>,
    pub sender_sig_hex: Seq<char>,
}

impl View for ParsedPaymentProof {
    type V = ProofView;

    open spec fn view(&self) -> ProofView {
        ProofView {
            amount: self.amount,
            excess_hex: self.excess_hex@,
            recipient_address: self.recipient_address@,
            recipient_sig_hex: self.recipient_sig_hex@,
            sender_address: self.sender_address@,
            sender_sig_hex: self.sender_sig_hex@,
        }
    }
}

/// The amount in a proof: a number that fits, or its decimal text.
pub open spec fn proof_amount(kind: json::Kind) -> Option<nat> {
    match kind {
        json::Kind::Number(Some(n)) => Some(n as nat),
        json::Kind::Text(s) => digits::unsigned_value(text::trimmed(s), u64::MAX as nat),
        _ => None,
    }
}

/// The proof that a JSON object describes: all six fields, five of them texts.
pub open spec fn proof_of(nodes: json::Nodes) -> Option<ProofView> {
    let amount = match json::member(nodes, "amount"@) {
        Some(m) => proof_amount(json::root(m).kind),
        None => None,
    };
    let excess = json::text_member(nodes, "excess"@);
    let recipient = json::text_member(nodes, "recipient_address"@);
    let recipient_sig = json::text_member(nodes, "recipient_sig"@);
    let sender = json::text_member(nodes, "sender_address"@);
    let sender_sig = json::text_member(nodes, "sender_sig"@);
    if amount is Some && excess is Some && recipient is Some && recipient_sig is Some
        && sender is Some && sender_sig is Some {
        Some(
            ProofView {
                amount: amount->0 as u64,
                excess_hex: text::lower(excess->0),
                recipient_address: recipient->0,
                recipient_sig_hex: text::lower(recipient_sig->0),
                sender_address: sender->0,
                sender_sig_hex: text::lower(sender_sig->0),
            },
        )
    } else {
        None
    }
}

/// Parse a payment proof from the object that a wallet exports. All six fields
/// are needed; `amount` is a text, as wallets write it, or a number.
pub fn parse_payment_proof(value: &serde_json::Value) -> (proof: Option<ParsedPaymentProof>)
    ensures
        match (proof, proof_of(json::value_nodes(*value))) {
            (Some(p), Some(v)) => p@ == v,
            (None, None) => true,
            _ => false,
        },
{
    let amount_raw = match get(value, "amount") {
        Some(v) => node(v),
        None => {
            return None;
        },
    };
    let excess = get_text(value, "excess")?;
    let recipient_address = get_text(value, "recipient_address")?;
    let recipient_sig = get_text(value, "recipient_sig")?;
    let sender_address = get_text(value, "sender_address")?;
    let sender_sig = get_text(value, "sender_sig")?;
    let amount: u64 = match amount_raw {
        Node::Number(Some(n)) => n,
        Node::Text(s) => match parse_u64(trim(s.as_str())) {
            Some(n) => n,
            None => {
                return None;
            },
        },
        _ => {
            return None;
        },
    };
    Some(
        ParsedPaymentProof {
            amount,
            excess_hex: to_lower(excess.as_str()),
            recipient_address,
            recipient_sig_hex: to_lower(recipient_sig.as_str()),
            sender_address,
            sender_sig_hex: to_lower(sender_sig.as_str()),
        },
    )
}

// ---------------------------------------------------------------------------
// Signatures
// ---------------------------------------------------------------------------

/// Whether the signature in hexadecimal is 64 bytes and holds.
pub open spec fn signed_by(key: Seq<u8>, msg: Seq<u8>, sig_hex: Seq<char>) -> bool {
    match crypto::hex_bytes(sig_hex) {
        Some(sig) => sig.len() == 64 && crypto::ed25519_holds(key, msg, sig),
        None => false,
    }
}

/// Whether both parties signed a proof: the recipient under the key of the
/// recipient's address and the sender under that of the sender's, both over
/// the message of the amount, the excess and the sender's key.
pub open spec fn both_signed(p: ProofView) -> bool {
    match (address::address_key(p.recipient_address), address::address_key(p.sender_address)) {
        (Some(recipient), Some(sender)) => match message(p.amount, p.excess_hex, sender) {
            Some(msg) => signed_by(recipient, msg, p.recipient_sig_hex) && signed_by(
                sender,
                msg,
                p.sender_sig_hex,
            ),
            None => false,
        },
        _ => false,
    }
}

/// Whether both signatures of a proof hold. A malformed field, a bad address
/// or a signature of another length makes it no proof.
pub fn verify_signatures(proof: &ParsedPaymentProof) -> (valid: bool)
    ensures
        valid == both_signed(proof@),
{
    let recipient_pub = match decode_grin_address(proof.recipient_address.as_str()) {
        Some(k) => k,
        None => {
            return false;
        },
    };
    let sender_pub = match decode_grin_address(proof.sender_address.as_str()) {
        Some(k) => k,
        None => {
            return false;
        },
    };
    let msg = match payment_proof_message(proof.amount, proof.excess_hex.as_str(), &sender_pub) {
        Some(m) => m,
        None => {
            return false;
        },
    };
    let recipient_sig = match hex_decode(proof.recipient_sig_hex.as_str()) {
        Some(s) => s,
        None => {
            return false;
        },
    };
    let sender_sig = match hex_decode(proof.sender_sig_hex.as_str()) {
        Some(s) => s,
        None => {
            return false;
        },
    };
    verify_ed25519(&recipient_pub, msg.as_slice(), recipient_sig.as_slice()) && verify_ed25519(
        &sender_pub,
        msg.as_slice(),
        sender_sig.as_slice(),
    )
}

fn verify_ed25519(pubkey: &[u8; 32], msg: &[u8], sig: &[u8]) -> (valid: bool)
    ensures
        valid == (sig@.len() == 64 && crypto::ed25519_holds(pubkey@, msg@, sig@)),
{
    if sig.len() != 64 {
        return false;
    }
    let mut fixed: [u8; 64] = [0u8; 64];
    let mut i: usize = 0;
    while i < 64
        invariant
            i <= 64,
            sig@.len() == 64,
            fixed@.len() == 64,
            forall|j: int| 0 <= j < i ==> fixed@[j] == sig@[j],
        decreases 64 - i,
    {
        fixed[i] = sig[i];
        i = i + 1;
    }
    assert(fixed@ =~= sig@);
    ed25519_verify(pubkey, msg, &fixed)
}

// ---------------------------------------------------------------------------
// Laws
// ---------------------------------------------------------------------------

/// The leading part of a number, one byte longer.
proof fn next_byte(n: u64, k: nat)
    requires
        k < 7,
    ensures
        n as int / pow(256, k) == 256 * (n as int / pow(256, k + 1)) + (be_bytes(n)[7 - k] as int),
{
    let d = pow(256, k);
    let m = n as int;
    lemma_pow_positive(256, k);
    reveal(pow);
    assert(pow(256, k + 1) == 256 * d);
    vstd::arithmetic::div_mod::lemma_div_denominator(m, d, 256);
    assert(d * 256 == 256 * d) by (nonlinear_arith);
    vstd::arithmetic::div_mod::lemma_fundamental_div_mod(m / d, 256);
}

/// Eight big-endian bytes stand for one number.
pub proof fn be_bytes_binds(a: u64, b: u64)
    requires
        be_bytes(a) == be_bytes(b),
    ensures
        a == b,
{
    powers_of_256();
    assert(be_bytes(a)[0] == (a as int / 0x100_0000_0000_0000) as u8);
    assert(be_bytes(b)[0] == (b as int / 0x100_0000_0000_0000) as u8);
    assert(a as int / pow(256, 7) == b as int / pow(256, 7));
    next_byte(a, 6);
    next_byte(b, 6);
    next_byte(a, 5);
    next_byte(b, 5);
    next_byte(a, 4);
    next_byte(b, 4);
    next_byte(a, 3);
    next_byte(b, 3);
    next_byte(a, 2);
    next_byte(b, 2);
    next_byte(a, 1);
    next_byte(b, 1);
    next_byte(a, 0);
    next_byte(b, 0);
}

/// The message binds what it is made of: two messages are equal only where the
/// amounts, the bytes of the excess and the senders' keys are. So whoever
/// changes one of them needs fresh signatures.
pub proof fn message_binds(
    amount_a: u64,
    excess_a: Seq<char>,
    sender_a: Seq<u8>,
    amount_b: u64,
    excess_b: Seq<char>,
    sender_b: Seq<u8>,
)
    requires
        message(amount_a, excess_a, sender_a) is Some,
        message(amount_a, excess_a, sender_a) == message(amount_b, excess_b, sender_b),
    ensures
        amount_a == amount_b,
        crypto::hex_bytes(excess_a) == crypto::hex_bytes(excess_b),
        sender_a == sender_b,
{
    let a = message(amount_a, excess_a, sender_a)->0;
    let b = message(amount_b, excess_b, sender_b)->0;
    assert(a.subrange(0, 8) =~= be_bytes(amount_a));
    assert(b.subrange(0, 8) =~= be_bytes(amount_b));
    be_bytes_binds(amount_a, amount_b);
    assert(a.subrange(8, 41) =~= crypto::hex_bytes(excess_a)->0);
    assert(b.subrange(8, 41) =~= crypto::hex_bytes(excess_b)->0);
    assert(a.skip(41) =~= sender_a);
    assert(b.skip(41) =~= sender_b);
}

/// A proof holds only where each party signed the same message, made of the
/// proof's own amount and excess.
pub proof fn both_parties_signed(p: ProofView)
    requires
        both_signed(p),
    ensures
        ({
            let recipient = address::address_key(p.recipient_address);
            let sender = address::address_key(p.sender_address);
            &&& recipient is Some
            &&& sender is Some
            &&& message(p.amount, p.excess_hex, sender->0) matches Some(msg) ==> signed_by(
                recipient->0,
                msg,
                p.recipient_sig_hex,
            ) && signed_by(sender->0, msg, p.sender_sig_hex)
            &&& message(p.amount, p.excess_hex, sender->0) is Some
        }),
{
}

/// The lowest byte of a leading part comes off.
proof fn peel(n: u64, k: nat, high: int, low: u8)
    requires
        k < 7,
        n as int / pow(256, k) == 256 * high + low,
    ensures
        n as int / pow(256, k + 1) == high,
        be_bytes(n)[7 - k] == low,
{
    next_byte(n, k);
    let q = n as int / pow(256, k + 1);
    let c = be_bytes(n)[7 - k] as int;
    assert(256 * q + c == 256 * high + low);
}

/// The amount stands in the message as the eight bytes whose value, in base
/// 256, is the amount.
pub proof fn amounts_are_big_endian(amount: u64, b: Seq<u8>)
    requires
        b.len() == 8,
        amount == b[0] * 0x100_0000_0000_0000 + b[1] * 0x1_0000_0000_0000 + b[2] * 0x100_0000_0000
            + b[3] * 0x1_0000_0000 + b[4] * 0x100_0000 + b[5] * 0x1_0000 + b[6] * 0x100 + b[7],
    ensures
        be_bytes(amount) == b,
{
    let h0: int = b[0] as int;
    let h1: int = 256 * h0 + b[1];
    let h2: int = 256 * h1 + b[2];
    let h3: int = 256 * h2 + b[3];
    let h4: int = 256 * h3 + b[4];
    let h5: int = 256 * h4 + b[5];
    let h6: int = 256 * h5 + b[6];
    assert(amount == 256 * h6 + b[7]);
    assert(amount as int / pow(256, 0) == amount) by {
        powers_of_256();
    }
    peel(amount, 0, h6, b[7]);
    peel(amount, 1, h5, b[6]);
    peel(amount, 2, h4, b[5]);
    peel(amount, 3, h3, b[4]);
    peel(amount, 4, h2, b[3]);
    peel(amount, 5, h1, b[2]);
    peel(amount, 6, h0, b[1]);
    assert(be_bytes(amount)[0] == b[0]);
    assert(be_bytes(amount) =~= b);
}

/// A proof is valid exactly where both parties signed it: the excess is 33
/// bytes, each signature is 64 bytes, and each holds, under the key of its own
/// party's address, over the eight bytes of the amount, the excess and the
/// sender's key. Nothing else of the proof matters, and no amount is too small
/// or too large.
pub proof fn genuine_proofs_are_valid(
    p: ProofView,
    recipient: Seq<u8>,
    sender: Seq<u8>,
    amount: Seq<u8>,
    excess: Seq<u8>,
    recipient_sig: Seq<u8>,
    sender_sig: Seq<u8>,
)
    requires
        address::address_key(p.recipient_address) == Some(recipient),
        address::address_key(p.sender_address) == Some(sender),
        crypto::hex_bytes(p.excess_hex) == Some(excess),
        crypto::hex_bytes(p.recipient_sig_hex) == Some(recipient_sig),
        crypto::hex_bytes(p.sender_sig_hex) == Some(sender_sig),
        amount.len() == 8,
        p.amount == amount[0] * 0x100_0000_0000_0000 + amount[1] * 0x1_0000_0000_0000 + amount[2]
            * 0x100_0000_0000 + amount[3] * 0x1_0000_0000 + amount[4] * 0x100_0000 + amount[5]
            * 0x1_0000 + amount[6] * 0x100 + amount[7],
    ensures
        both_signed(p) <==> {
            &&& excess.len() == 33
            &&& recipient_sig.len() == 64
            &&& sender_sig.len() == 64
            &&& crypto::ed25519_holds(recipient, amount + excess + sender, recipient_sig)
            &&& crypto::ed25519_holds(sender, amount + excess + sender, sender_sig)
        },
{
    amounts_are_big_endian(p.amount, amount);
}

/// A proof with an address that is none, or with an excess or a signature that
/// is not hexadecimal, is not valid.
pub proof fn malformed_proofs_are_not_valid(p: ProofView)
    requires
        address::address_key(p.recipient_address) is None || address::address_key(
            p.sender_address,
        ) is None || crypto::hex_bytes(p.excess_hex) is None || crypto::hex_bytes(
            p.recipient_sig_hex,
        ) is None || crypto::hex_bytes(p.sender_sig_hex) is None,
    ensures
        !both_signed(p),
{
}

/// A proof is read field by field from the members that wallets name so, with
/// the hexadecimal ones in lower case; the amount is a number, or the decimal
/// text of one.
pub proof fn proofs_are_read_field_by_field(
    nodes: json::Nodes,
    excess: Seq<char>,
    recipient_address: Seq<char>,
    recipient_sig: Seq<char>,
    sender_address: Seq<char>,
    sender_sig: Seq<char>,
    amount: u64,
)
    requires
        json::text_member(nodes, "excess"@) == Some(excess),
        json::text_member(nodes, "recipient_address"@) == Some(recipient_address),
        json::text_member(nodes, "recipient_sig"@) == Some(recipient_sig),
        json::text_member(nodes, "sender_address"@) == Some(sender_address),
        json::text_member(nodes, "sender_sig"@) == Some(sender_sig),
        json::number_member(nodes, "amount"@) == Some(amount) || (json::text_member(
            nodes,
            "amount"@,
        ) matches Some(t) && digits::unsigned_value(text::trimmed(t), 0xffff_ffff_ffff_ffff) == Some(
            amount as nat,
        )),
    ensures
        proof_of(nodes) matches Some(p) && {
            &&& p.amount == amount
            &&& p.excess_hex == text::lower(excess)
            &&& p.recipient_address == recipient_address
            &&& p.recipient_sig_hex == text::lower(recipient_sig)
            &&& p.sender_address == sender_address
            &&& p.sender_sig_hex == text::lower(sender_sig)
        },
{
}

/// Every field is needed, and the amount must be a number that fits.
pub proof fn proofs_need_every_field(nodes: json::Nodes)
    requires
        proof_of(nodes) is Some,
    ensures
        json::text_member(nodes, "excess"@) is Some,
        json::text_member(nodes, "recipient_address"@) is Some,
        json::text_member(nodes, "recipient_sig"@) is Some,
        json::text_member(nodes, "sender_address"@) is Some,
        json::text_member(nodes, "sender_sig"@) is Some,
        json::number_member(nodes, "amount"@) is Some || (json::text_member(
            nodes,
            "amount"@,
        ) matches Some(t) && digits::unsigned_value(text::trimmed(t), 0xffff_ffff_ffff_ffff)
            is Some),
{
}

/// A parsed proof is seen with the fields that it has.
pub proof fn proof_views_show_the_fields(p: ParsedPaymentProof)
    ensures
        p@.amount == p.amount,
        p@.excess_hex == p.excess_hex@,
        p@.recipient_address == p.recipient_address@,
        p@.recipient_sig_hex == p.recipient_sig_hex@,
        p@.sender_address == p.sender_address@,
        p@.sender_sig_hex == p.sender_sig_hex@,
{
}

} // verus!
