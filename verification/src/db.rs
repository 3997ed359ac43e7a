//! The tables of the authority and the rows that cross its edge.

use vstd::prelude::*;
use vstd::string::*;

verus! {

/// The full schema. Every statement is idempotent, so it is applied at every
/// startup.
pub const SCHEMA: &'static str = "CREATE TABLE IF NOT EXISTS names (
        name TEXT PRIMARY KEY,
        pubkey TEXT NOT NULL,
        created_at INTEGER NOT NULL,
        released_at INTEGER
    );
    CREATE INDEX IF NOT EXISTS idx_names_pubkey ON names(pubkey);
    -- Enforce one active name per pubkey at the DB layer (defeats the
    -- check-then-insert race that app code alone cannot close).
    CREATE UNIQUE INDEX IF NOT EXISTS idx_active_pubkey
        ON names(pubkey) WHERE released_at IS NULL;
    -- Paid-resource grants: one open grant per (pubkey, resource). `status`
    -- is 'pending' until the GoblinPay invoice settles, then 'paid'.
    CREATE TABLE IF NOT EXISTS paid_grants (
        pubkey TEXT NOT NULL,
        resource TEXT NOT NULL,
        invoice_id TEXT NOT NULL,
        pay_url TEXT NOT NULL,
        amount_nanogrin INTEGER NOT NULL,
        status TEXT NOT NULL,
        created_at INTEGER NOT NULL,
        paid_at INTEGER,
        PRIMARY KEY (pubkey, resource)
    );
    CREATE INDEX IF NOT EXISTS idx_grants_invoice ON paid_grants(invoice_id);
    -- Name-transfer offers (kind 3402 events lodged by sellers). status is one
    -- of live | consumed | revoked | expired. end_height/state_changed_at are
    -- recorded when an offer leaves `live` by revocation or expiry, and gate
    -- late claims (a payment must settle before the offer died).
    CREATE TABLE IF NOT EXISTS offers (
        offer_id TEXT PRIMARY KEY,
        event_json TEXT NOT NULL,
        name TEXT NOT NULL,
        seller_pubkey TEXT NOT NULL,
        buyer_pubkey TEXT NOT NULL,
        price_nanogrin INTEGER NOT NULL,
        proof_address TEXT NOT NULL,
        expiration INTEGER NOT NULL,
        status TEXT NOT NULL,
        end_height INTEGER,
        state_changed_at INTEGER,
        created_at INTEGER NOT NULL
    );
    CREATE INDEX IF NOT EXISTS idx_offers_name ON offers(name);
    CREATE INDEX IF NOT EXISTS idx_offers_addr ON offers(proof_address);
    -- Completed transfers. The UNIQUE on kernel_excess is the durable single-use
    -- guarantee against proof replay (the in-memory replay set is not enough).
    CREATE TABLE IF NOT EXISTS transfers (
        offer_id TEXT PRIMARY KEY,
        name TEXT NOT NULL,
        seller_pubkey TEXT NOT NULL,
        buyer_pubkey TEXT NOT NULL,
        price_nanogrin INTEGER NOT NULL,
        kernel_excess TEXT NOT NULL UNIQUE,
        kernel_height INTEGER,
        claimed_at INTEGER NOT NULL
    );";

// The statements that find things out and change them, with what each does.

/// The key that holds the name `?1`.
pub const OWNER_OF: &'static str =
    "SELECT pubkey FROM names WHERE name = ?1 AND released_at IS NULL";

/// The name that the key `?1` holds.
pub const NAME_OF: &'static str =
    "SELECT name FROM names WHERE pubkey = ?1 AND released_at IS NULL";

/// The offer with the id `?1`.
pub const OFFER: &'static str = "SELECT offer_id, event_json, name, seller_pubkey, buyer_pubkey, \
     price_nanogrin, proof_address, expiration, status, end_height, state_changed_at, created_at \
     FROM offers WHERE offer_id = ?1";

/// A row where a live offer for the name `?1` has not ended by `?2`. One that
/// is `live` but has ended is dead already and does not count.
pub const LIVE_FOR_NAME: &'static str = "SELECT 1 FROM offers WHERE name = ?1 \
     AND status = 'live' AND expiration >= ?2 LIMIT 1";

/// A row where a live offer paid to the address `?1` has not ended by `?2`.
pub const LIVE_FOR_ADDRESS: &'static str = "SELECT 1 FROM offers WHERE proof_address = ?1 \
     AND status = 'live' AND expiration >= ?2 LIMIT 1";

/// Store a `live` offer. The id is taken once.
pub const INSERT_OFFER: &'static str = "INSERT INTO offers (offer_id, event_json, name, \
     seller_pubkey, buyer_pubkey, price_nanogrin, proof_address, expiration, status, created_at) \
     VALUES (?1, ?2, ?3, ?4, ?5, ?6, ?7, ?8, 'live', ?9)";

/// Give the offer `?1` the status `?2` and the record of its death, where it
/// is still `live`.
pub const MARK_DEAD: &'static str = "UPDATE offers SET status = ?2, end_height = ?3, \
     state_changed_at = ?4 WHERE offer_id = ?1 AND status = 'live'";

/// Make the offer `?1` `revoked` and keep the record of its death.
pub const MARK_REVOKED: &'static str = "UPDATE offers SET status = 'revoked' WHERE offer_id = ?1";

/// The completed transfer of the offer `?1`.
pub const TRANSFER: &'static str =
    "SELECT kernel_excess, name, buyer_pubkey FROM transfers WHERE offer_id = ?1";

/// A row where a transfer used the excess `?1`.
pub const EXCESS_USED: &'static str = "SELECT 1 FROM transfers WHERE kernel_excess = ?1 LIMIT 1";

/// Give the name `?1` to the key `?2` at `?3`, where the key `?4` still holds
/// it. A key that holds another name breaks a constraint.
pub const MOVE_NAME: &'static str = "UPDATE names SET pubkey = ?2, created_at = ?3 \
     WHERE name = ?1 AND pubkey = ?4 AND released_at IS NULL";

/// Record a transfer. An excess that was used breaks a constraint.
pub const RECORD_TRANSFER: &'static str = "INSERT INTO transfers (offer_id, name, \
     seller_pubkey, buyer_pubkey, price_nanogrin, kernel_excess, kernel_height, claimed_at) \
     VALUES (?1, ?2, ?3, ?4, ?5, ?6, ?7, ?8)";

/// Make the offer `?1` `consumed`.
pub const CONSUME_OFFER: &'static str =
    "UPDATE offers SET status = 'consumed' WHERE offer_id = ?1";

/// The grant of the key `?1` for the resource `?2`.
pub const GRANT: &'static str = "SELECT pubkey, resource, invoice_id, pay_url, amount_nanogrin, \
     status FROM paid_grants WHERE pubkey = ?1 AND resource = ?2";

/// The grant of the invoice `?1`.
pub const GRANT_BY_INVOICE: &'static str = "SELECT pubkey, resource, invoice_id, pay_url, \
     amount_nanogrin, status FROM paid_grants WHERE invoice_id = ?1";

/// Store a pending grant, in place of an older one of that key and resource.
pub const PUT_PENDING_GRANT: &'static str = "INSERT INTO paid_grants (pubkey, resource, \
     invoice_id, pay_url, amount_nanogrin, status, created_at) \
     VALUES (?1, ?2, ?3, ?4, ?5, 'pending', ?6) \
     ON CONFLICT(pubkey, resource) DO UPDATE SET invoice_id = excluded.invoice_id, \
     pay_url = excluded.pay_url, amount_nanogrin = excluded.amount_nanogrin, \
     status = 'pending', created_at = excluded.created_at, paid_at = NULL";

/// Make the grant of the invoice `?1` `paid` at `?2`.
pub const MARK_GRANT_PAID: &'static str = "UPDATE paid_grants SET status = 'paid', paid_at = ?2 \
     WHERE invoice_id = ?1 AND status != 'paid'";

/// Delete the grant of the key `?1` for the resource `?2`.
pub const CONSUME_GRANT: &'static str =
    "DELETE FROM paid_grants WHERE pubkey = ?1 AND resource = ?2";

/// A lodged offer.
#[derive(Debug, Clone)]
pub struct OfferRow {
    /// The id of the seller's event.
    pub offer_id: String,
    /// The seller's event, as JSON.
    pub event_json: String,
    pub name: String,
    pub seller_pubkey: String,
    pub buyer_pubkey: String,
    pub price_nanogrin: i64,
    pub proof_address: String,
    /// When the offer ends, in seconds since the epoch.
    pub expiration: i64,
    /// `live`, `consumed`, `revoked` or `expired`.
    pub status: String,
    /// The chain's height when the offer died, where it was known.
    pub end_height: Option<i64>,
    /// When the offer died.
    pub state_changed_at: Option<i64>,
    pub created_at: i64,
}

/// A 64-bit number as SQLite stores it: the same 64 bits read with a sign.
pub open spec fn stored(n: u64) -> int {
    if n <= i64::MAX {
        n as int
    } else {
        n - 0x1_0000_0000_0000_0000
    }
}

/// A 64-bit number as SQLite stores it.
pub fn to_stored(n: u64) -> (r: i64)
    ensures
        r == stored(n),
{
    if n <= i64::MAX as u64 {
        n as i64
    } else {
        -((u64::MAX - n) as i64) - 1
    }
}

// ---------------------------------------------------------------------------
// Laws
// ---------------------------------------------------------------------------

/// A number below two to the 63 is stored as it is, and one above it as the
/// negative number with the same 64 bits.
pub proof fn numbers_are_stored(n: u64)
    ensures
        n < 0x8000_0000_0000_0000 ==> stored(n) == n,
        n >= 0x8000_0000_0000_0000 ==> stored(n) == n - 0x1_0000_0000_0000_0000,
        i64::MIN <= stored(n) <= i64::MAX,
{
}

} // verus!
