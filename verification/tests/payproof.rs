//! Grin payment proofs: addresses, the signed message, parsing and signatures.

use ed25519_dalek::{Signer, SigningKey};
use floonet_name_authority::payproof::{
    amount_to_be_u64, decode_grin_address, grin_address_from_pubkey, normalize_grin_address,
    parse_payment_proof, payment_proof_message, verify_signatures,
};
use rand::rngs::OsRng;
use rand::RngCore;
use serde_json::Value;

fn keypair() -> (SigningKey, [u8; 32]) {
    let mut seed = [0u8; 32];
    OsRng.fill_bytes(&mut seed);
    let sk = SigningKey::from_bytes(&seed);
    let pk = sk.verifying_key().to_bytes();
    (sk, pk)
}

fn object(fields: &[(&str, String)]) -> Value {
    let mut map = serde_json::Map::new();
    for (k, v) in fields {
        map.insert(k.to_string(), Value::String(v.clone()));
    }
    Value::Object(map)
}

/// Build a fully-signed six-field proof JSON value, exactly as the wallet
/// exports it: sign the real 73-byte message with real ed25519 keys.
fn make_proof(amount: u64) -> (Value, String) {
    let (recipient_sk, recipient_pub) = keypair();
    let (sender_sk, sender_pub) = keypair();

    // 33-byte kernel excess (Pedersen-commitment-shaped fixture).
    let mut excess = [0u8; 33];
    excess[..32].copy_from_slice(&recipient_pub);
    excess[32] = 0x08;
    let excess_hex = hex::encode(excess);

    let msg = payment_proof_message(amount, &excess_hex, &sender_pub).unwrap();
    let recipient_sig = hex::encode(recipient_sk.sign(&msg).to_bytes());
    let sender_sig = hex::encode(sender_sk.sign(&msg).to_bytes());
    let recipient_address = grin_address_from_pubkey(&recipient_pub, "grin");

    let json = object(&[
        ("amount", amount.to_string()),
        ("excess", excess_hex),
        ("recipient_address", recipient_address.clone()),
        ("recipient_sig", recipient_sig),
        ("sender_address", grin_address_from_pubkey(&sender_pub, "grin")),
        ("sender_sig", sender_sig),
    ]);
    (json, recipient_address)
}

#[test]
fn grin_address_round_trips() {
    let (_, pk) = keypair();
    let grin = grin_address_from_pubkey(&pk, "grin");
    assert!(grin.starts_with("grin1"));
    assert_eq!(decode_grin_address(&grin), Some(pk));
    // The test network's addresses round-trip too, whatever their case.
    let tgrin = grin_address_from_pubkey(&pk, "tgrin");
    assert!(tgrin.starts_with("tgrin1"));
    assert_eq!(decode_grin_address(&format!(" {} ", tgrin.to_uppercase())), Some(pk));
}

#[test]
fn foreign_addresses_are_refused() {
    let (_, pk) = keypair();
    assert_eq!(decode_grin_address(&grin_address_from_pubkey(&pk, "btc")), None);
    assert_eq!(decode_grin_address("grin1"), None);
    assert_eq!(decode_grin_address("not an address"), None);
    // A bech32m checksum is not that of a Grin address.
    let m = bech32::encode("grin", bech32::ToBase32::to_base32(&pk), bech32::Variant::Bech32m);
    assert_eq!(decode_grin_address(&m.unwrap()), None);
    // Nor is a payload of another length a key.
    let short = [7u8; 31];
    let s = bech32::encode("grin", bech32::ToBase32::to_base32(&short), bech32::Variant::Bech32);
    assert_eq!(decode_grin_address(&s.unwrap()), None);
    // One wrong character breaks the checksum.
    let mut typo = grin_address_from_pubkey(&pk, "grin");
    let last = if typo.ends_with('q') { "p" } else { "q" };
    typo.replace_range(typo.len() - 1.., last);
    assert_eq!(decode_grin_address(&typo), None);
}

#[test]
fn address_of_a_known_key() {
    let grin = grin_address_from_pubkey(&[0u8; 32], "grin");
    assert_eq!(grin, bech32::encode(
        "grin",
        bech32::ToBase32::to_base32(&[0u8; 32]),
        bech32::Variant::Bech32
    ).unwrap());
    assert_eq!(&grin[..57], format!("grin1{}", "q".repeat(52)));
    // Five bits make a letter, the last one filled with a zero.
    let high = grin_address_from_pubkey(&[0xff; 32], "grin");
    assert_eq!(&high[..57], format!("grin1{}s", "l".repeat(51)));
    assert_eq!(high.len(), 63);
}

#[test]
fn spellings_of_an_address_decode_alike() {
    let (_, pk) = keypair();
    for hrp in ["grin", "tgrin", "GRIN"] {
        let s = grin_address_from_pubkey(&pk, hrp);
        assert!(s.starts_with(&format!("{}1", hrp.to_lowercase())));
        assert_eq!(s, s.to_lowercase());
        let mixed: String = s
            .chars()
            .enumerate()
            .map(|(i, c)| if i % 2 == 0 { c.to_ascii_uppercase() } else { c })
            .collect();
        for t in [s.clone(), s.to_uppercase(), mixed, format!("\t {s}\n"), format!("{s}\u{a0}")] {
            assert_eq!(decode_grin_address(&t), Some(pk));
        }
    }
    for hrp in ["bc", "grin1", "1", "g", "!~", "BTC"] {
        assert_eq!(decode_grin_address(&grin_address_from_pubkey(&pk, hrp)), None);
    }
}

#[test]
fn addresses_are_compared_trimmed_and_lower_case() {
    assert_eq!(normalize_grin_address("  GRIN1AbC\n"), "grin1abc");
    assert_eq!(normalize_grin_address("ÄÖ"), "äö");
}

#[test]
fn message_layout_is_amount_excess_sender() {
    let (_, sender) = keypair();
    let excess_hex = hex::encode([7u8; 33]);
    let msg = payment_proof_message(5, &excess_hex, &sender).unwrap();
    assert_eq!(msg.len(), 73);
    assert_eq!(&msg[0..8], &[0, 0, 0, 0, 0, 0, 0, 5]);
    assert_eq!(&msg[8..41], &[7u8; 33]);
    assert_eq!(&msg[41..], &sender);
}

#[test]
fn amounts_are_big_endian() {
    for n in [0, 1, 255, 256, 0x0102_0304_0506_0708, u64::MAX] {
        assert_eq!(amount_to_be_u64(n), n.to_be_bytes());
    }
}

#[test]
fn message_rejects_wrong_length_excess() {
    let (_, sender) = keypair();
    assert!(payment_proof_message(5, &hex::encode([0u8; 10]), &sender).is_none());
    assert!(payment_proof_message(5, "zz", &sender).is_none());
    assert!(payment_proof_message(5, &"0".repeat(65), &sender).is_none());
    // Capitals are hexadecimal digits too.
    let upper = hex::encode_upper([0xabu8; 33]);
    assert_eq!(payment_proof_message(5, &upper, &sender).unwrap()[8], 0xab);
}

#[test]
fn parse_requires_all_six_fields() {
    let (good, _) = make_proof(1_500_000_000);
    assert!(parse_payment_proof(&good).is_some());
    // Drop sender_sig: no longer a full proof.
    let mut obj = good.as_object().unwrap().clone();
    obj.remove("sender_sig");
    assert!(parse_payment_proof(&Value::Object(obj)).is_none());
}

#[test]
fn parse_takes_numbers_and_texts_for_the_amount() {
    let (good, _) = make_proof(7);
    let with = |v: Value| {
        let mut obj = good.as_object().unwrap().clone();
        obj.insert("amount".into(), v);
        parse_payment_proof(&Value::Object(obj))
    };
    assert_eq!(with(Value::from(9u64)).unwrap().amount, 9);
    assert_eq!(with(Value::from(" 9 ")).unwrap().amount, 9);
    assert!(with(Value::from(-9i64)).is_none());
    assert!(with(Value::from(1.5)).is_none());
    assert!(with(Value::from("x")).is_none());
    assert!(with(Value::Null).is_none());
    assert!(with(Value::Bool(true)).is_none());
    assert!(parse_payment_proof(&Value::Array(vec![good.clone()])).is_none());
    // Only texts are texts.
    let mut obj = good.as_object().unwrap().clone();
    obj.insert("excess".into(), Value::from(1));
    assert!(parse_payment_proof(&Value::Object(obj)).is_none());
}

#[test]
fn parse_lowers_the_hex() {
    let (good, _) = make_proof(7);
    let mut obj = good.as_object().unwrap().clone();
    obj.insert("excess".into(), Value::from("ABcd"));
    assert_eq!(parse_payment_proof(&Value::Object(obj)).unwrap().excess_hex, "abcd");
}

#[test]
fn genuine_proof_verifies_both_signatures() {
    let (json, _) = make_proof(1_500_000_000);
    let proof = parse_payment_proof(&json).unwrap();
    assert!(verify_signatures(&proof));
}

#[test]
fn tampered_recipient_signature_is_rejected() {
    let (json, _) = make_proof(1_500_000_000);
    let mut proof = parse_payment_proof(&json).unwrap();
    proof.recipient_sig_hex.replace_range(0..2, "ff");
    assert!(!verify_signatures(&proof));
}

#[test]
fn tampered_sender_signature_is_rejected() {
    let (json, _) = make_proof(1_500_000_000);
    let mut proof = parse_payment_proof(&json).unwrap();
    proof.sender_sig_hex.replace_range(0..2, "ff");
    assert!(!verify_signatures(&proof));
}

#[test]
fn wrong_amount_breaks_the_signature() {
    // The amount is bound into the signed message, so changing it (without
    // a fresh signature) fails verification.
    let (json, _) = make_proof(1_500_000_000);
    let mut proof = parse_payment_proof(&json).unwrap();
    proof.amount += 1;
    assert!(!verify_signatures(&proof));
}

#[test]
fn malformed_fields_make_no_proof() {
    let (json, _) = make_proof(1);
    let proof = parse_payment_proof(&json).unwrap();
    let mut p = proof.clone();
    p.recipient_address = "nowhere".into();
    assert!(!verify_signatures(&p));
    let mut p = proof.clone();
    p.sender_address = "nowhere".into();
    assert!(!verify_signatures(&p));
    let mut p = proof.clone();
    p.excess_hex.truncate(64);
    assert!(!verify_signatures(&p));
    let mut p = proof.clone();
    p.recipient_sig_hex = "xyz".into();
    assert!(!verify_signatures(&p));
    let mut p = proof.clone();
    p.sender_sig_hex.truncate(126);
    assert!(!verify_signatures(&p));
}
