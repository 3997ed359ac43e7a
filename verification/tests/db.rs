//! The schema, on a database in memory.

use floonet_name_authority::db::{to_stored, SCHEMA};
use rusqlite::Connection;

/// A released name is immediately revivable by a new key via the register
/// upsert.
#[test]
fn released_name_immediately_reclaimable() {
    let db = Connection::open_in_memory().expect("db");
    db.execute_batch(SCHEMA).unwrap();
    let (a, b) = ("aa".repeat(32), "bb".repeat(32));
    db.execute(
        "INSERT INTO names (name, pubkey, created_at, released_at) VALUES ('alice', ?1, 1, 5)",
        [&a],
    )
    .unwrap();
    let n = db
        .execute(
            "INSERT INTO names (name, pubkey, created_at) VALUES (?1, ?2, ?3)
                 ON CONFLICT(name) DO UPDATE SET pubkey = excluded.pubkey,
                    created_at = excluded.created_at, released_at = NULL
                 WHERE names.released_at IS NOT NULL",
            ("alice", &b, 6),
        )
        .unwrap();
    assert_eq!(n, 1);
    let owner: String = db
        .query_row(
            "SELECT pubkey FROM names WHERE name='alice' AND released_at IS NULL",
            [],
            |r| r.get(0),
        )
        .unwrap();
    assert_eq!(owner, b);
}

#[test]
fn schema_is_idempotent_and_guards_active_keys() {
    let db = Connection::open_in_memory().expect("db");
    db.execute_batch(SCHEMA).unwrap();
    db.execute_batch(SCHEMA).unwrap();
    let insert = "INSERT INTO names (name, pubkey, created_at) VALUES (?1, ?2, 1)";
    db.execute(insert, ("alice", "k")).unwrap();
    assert!(db.execute(insert, ("bob", "k")).is_err());
}

#[test]
fn numbers_are_stored_by_their_bits() {
    for n in [0, 1, i64::MAX as u64, i64::MAX as u64 + 1, u64::MAX] {
        assert_eq!(to_stored(n), n as i64);
    }
}
