//! Small helpers.

use floonet_name_authority::names::{domain_reserved, valid_name, valid_pubkey_hex};
use floonet_name_authority::util::{client_ip, clock_seconds, ct_eq, unix_now};

#[test]
fn ct_eq_basics() {
    assert!(ct_eq(b"abc", b"abc"));
    assert!(!ct_eq(b"abc", b"abd"));
    assert!(!ct_eq(b"abc", b"ab"));
    assert!(ct_eq(b"", b""));
}

#[test]
fn client_ip_falls_back() {
    assert_eq!(client_ip(&Some("10.0.0.1".into())), "10.0.0.1");
    assert_eq!(client_ip(&None), "unknown");
}

#[test]
fn clock_counts_seconds() {
    assert_eq!(clock_seconds(Some(1_700_000_000)), 1_700_000_000);
    assert_eq!(clock_seconds(None), 0);
    assert_eq!(clock_seconds(Some(u64::MAX)), -1);
    // Some time in this century.
    let now = unix_now();
    assert!(now > 1_600_000_000 && now < 4_200_000_000);
}

#[test]
fn names_have_their_shape() {
    assert!(valid_name("alice", 3, 20));
    assert!(valid_name("a.b-c_9", 3, 20));
    assert!(!valid_name("al", 3, 20));
    assert!(!valid_name("Alice", 3, 20));
    assert!(!valid_name("-alice", 3, 20));
    assert!(!valid_name("alice.", 3, 20));
    assert!(!valid_name("al ice", 3, 20));
    assert!(!valid_name("", 0, 20));
    assert!(valid_name("aaaaaaaaaaaaaaaaaaaa", 3, 20));
    assert!(!valid_name("aaaaaaaaaaaaaaaaaaaaa", 3, 20));
}

#[test]
fn pubkeys_are_lower_case_hex() {
    assert!(valid_pubkey_hex(&"0a".repeat(32)));
    assert!(!valid_pubkey_hex(&"0A".repeat(32)));
    assert!(!valid_pubkey_hex(&"0g".repeat(32)));
    assert!(!valid_pubkey_hex(&"0a".repeat(31)));
}

#[test]
fn domain_labels_are_reserved() {
    assert_eq!(domain_reserved("floonet.example"), vec!["floonet"]);
    assert_eq!(domain_reserved("A.B.example"), vec!["a", "b"]);
    assert_eq!(domain_reserved("localhost"), Vec::<String>::new());
}
