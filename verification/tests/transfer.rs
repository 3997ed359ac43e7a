//! The name marketplace: genuine signed offers, genuine ed25519-signed Grin
//! payment proofs, the real tables, and a chain in memory.

use base64::Engine;
use ed25519_dalek::{Signer, SigningKey};
use floonet_name_authority::config::{Config, PayMode};
use floonet_name_authority::db;
use floonet_name_authority::db::OfferRow;
use floonet_name_authority::event::NostrEvent;
use floonet_name_authority::handlers::entry::{EntryAsk, Request};
use floonet_name_authority::handlers::reply::{Field, Reply};
use floonet_name_authority::handlers::transfer::{
    claim, claim_signed, extract_offer_tags, lodge_offer, lodge_signed, read_claim, read_offer,
    revoke_offer, run_claim_txn, settle_expiry, Ask, Inserted, Outcome, Plan, Seen, Statement,
    Step, Transfer, TxErr, Txn,
};
use floonet_name_authority::handlers::{routes, Endpoint, Verb};
use floonet_name_authority::node::{ChainSource, KernelResult, TestChainSource};
use floonet_name_authority::payproof::{
    grin_address_from_pubkey, payment_proof_message, ParsedPaymentProof,
};
use floonet_name_authority::ratelimit::Limits;
use floonet_name_authority::util::unix_now;
use nostr::{EventBuilder, JsonUtil, Keys, Kind, Tag, Timestamp};
use rand::rngs::OsRng;
use rand::RngCore;
use rusqlite::Connection;
use serde_json::Value;

const BASE_URL: &str = "https://floonet.example";
const DOMAIN: &str = "floonet.example";
const PRICE: u64 = 500_000_000_381_624;
const PRICE_STR: &str = "500000000381624";

// --- app / node harness -----------------------------------------------------

struct App {
    cfg: Config,
    db: Connection,
    limits: Limits,
    node: Option<TestChainSource>,
    clock: u64,
}

fn now() -> i64 {
    unix_now()
}

/// A transfers-enabled app with a scriptable chain at tip 1000.
fn transfer_app() -> App {
    let mut cfg = Config::for_test();
    cfg.allow_transfers = true;
    cfg.grin_node_url = Some("http://test-node/v2/foreign".into());
    assert!(cfg.validate().is_ok());
    let db = Connection::open_in_memory().unwrap();
    db.execute_batch(db::SCHEMA).unwrap();
    App { cfg, db, limits: Limits::new(), node: Some(TestChainSource::new(1000)), clock: 1_000_000 }
}

fn json_of(reply: &Reply<String>) -> Value {
    let mut object = serde_json::Map::new();
    for (key, field) in reply.body.members() {
        let value = match field {
            Field::Text(s) => Value::String(s),
            Field::Signed(n) => Value::from(n),
            Field::Unsigned(n) => Value::from(n),
            Field::Flag(b) => Value::Bool(b),
            Field::Document(s) => serde_json::from_str(&s).unwrap(),
        };
        object.insert(key, value);
    }
    Value::Object(object)
}

fn outcome(r: rusqlite::Result<usize>) -> Outcome {
    match r {
        Ok(n) => Outcome::Rows(n as u64),
        Err(rusqlite::Error::SqliteFailure(e, _))
            if e.code == rusqlite::ErrorCode::ConstraintViolation =>
        {
            Outcome::Constraint
        }
        Err(_) => Outcome::Failed,
    }
}

impl App {
    fn node(&mut self) -> &mut TestChainSource {
        self.node.as_mut().unwrap()
    }

    /// Seed a name directly as owned by `pubkey` (bypasses the register flow).
    fn seed_name(&self, name: &str, pubkey: &str) {
        self.db
            .execute(
                "INSERT INTO names (name, pubkey, created_at) VALUES (?1, ?2, ?3)",
                (name, pubkey, 1i64),
            )
            .unwrap();
    }

    fn lookup(&self, name: &str) -> Option<String> {
        self.db.query_row(db::OWNER_OF, [name], |r| r.get(0)).ok()
    }

    fn name_of(&self, pubkey: &str) -> Option<String> {
        self.db.query_row(db::NAME_OF, [pubkey], |r| r.get(0)).ok()
    }

    fn get_offer(&self, offer_id: &str) -> Option<OfferRow> {
        self.db
            .query_row(db::OFFER, [offer_id], |r| {
                Ok(OfferRow {
                    offer_id: r.get(0)?,
                    event_json: r.get(1)?,
                    name: r.get(2)?,
                    seller_pubkey: r.get(3)?,
                    buyer_pubkey: r.get(4)?,
                    price_nanogrin: r.get(5)?,
                    proof_address: r.get(6)?,
                    expiration: r.get(7)?,
                    status: r.get(8)?,
                    end_height: r.get(9)?,
                    state_changed_at: r.get(10)?,
                    created_at: r.get(11)?,
                })
            })
            .ok()
    }

    fn cooldown_active(&self, bucket: &str, key: &str, secs: u64) -> bool {
        self.limits.cooldown_active(&format!("{bucket}:{key}"), self.clock, secs * 1000)
    }

    fn execute(&mut self, plan: &Plan<String>) -> Result<(), TxErr> {
        let tx = match self.db.transaction() {
            Ok(tx) => tx,
            Err(_) => return Err(TxErr::Db),
        };
        let mut outcomes = Vec::new();
        loop {
            match run_claim_txn(plan, &outcomes) {
                Txn::Done(r) => return r,
                Txn::Run(Statement::Begin) => outcomes.push(Outcome::Rows(0)),
                Txn::Run(Statement::MoveName { name, seller, buyer, at }) => {
                    outcomes.push(outcome(tx.execute(db::MOVE_NAME, (name, buyer, at, seller))));
                }
                Txn::Run(Statement::Record(p)) => {
                    let row = (
                        p.offer_id,
                        p.name,
                        p.seller,
                        p.buyer,
                        p.price,
                        p.excess,
                        p.kernel_height,
                        p.at,
                    );
                    outcomes.push(outcome(tx.execute(db::RECORD_TRANSFER, row)));
                }
                Txn::Run(Statement::Consume { offer_id }) => {
                    outcomes.push(outcome(tx.execute(db::CONSUME_OFFER, [offer_id])));
                }
                Txn::Run(Statement::Commit) => {
                    return match tx.commit() {
                        Ok(()) => Ok(()),
                        Err(_) => Err(TxErr::Db),
                    };
                }
            }
        }
    }

    fn perform(&mut self, ask: Ask<String>, seen: &mut Seen) {
        self.clock += 1;
        match ask {
            Ask::Entry(EntryAsk::AllowRead { ip }) => {
                let (max, window) = (self.cfg.read_rate_max, self.cfg.read_rate_window);
                let key = format!("read:{ip}");
                seen.entry.allowed = Some(self.limits.allow(&key, self.clock, max, window * 1000));
            }
            Ask::Entry(EntryAsk::AllowWrite { bucket, ip }) => {
                let (max, window) = (self.cfg.write_rate_max, self.cfg.write_rate_window);
                let key = format!("write:{bucket}:{ip}");
                seen.entry.allowed = Some(self.limits.allow(&key, self.clock, max, window * 1000));
            }
            Ask::Entry(EntryAsk::AuthTime) => seen.entry.auth_time = Some(now()),
            Ask::Entry(EntryAsk::FreshAuth { id }) => {
                seen.entry.fresh = Some(self.limits.auth_event_fresh(&id, self.clock, 121_000));
            }
            Ask::Offer { offer_id } => seen.offer = Some(self.get_offer(&offer_id)),
            Ask::Now => seen.now = Some(now()),
            Ask::Tip => seen.tip = Some(self.node.as_ref().and_then(|n| n.tip_height().ok())),
            Ask::MarkDead { offer_id, status, end_height, at } => {
                self.db.execute(db::MARK_DEAD, (offer_id, status, end_height, at)).unwrap();
                seen.marked = true;
            }
            Ask::MarkRevoked { offer_id } => {
                self.db.execute(db::MARK_REVOKED, [offer_id]).unwrap();
                seen.marked = true;
            }
            Ask::Reread { offer_id } => seen.reread = Some(self.get_offer(&offer_id)),
            Ask::Transfer { offer_id } => {
                let row = self.db.query_row(db::TRANSFER, [offer_id], |r| {
                    Ok(Transfer {
                        kernel_excess: r.get(0)?,
                        name: r.get(1)?,
                        buyer_pubkey: r.get(2)?,
                    })
                });
                seen.transfer = Some(row.ok());
            }
            Ask::Owner { name } => seen.owner = Some(self.lookup(&name)),
            Ask::LiveForName { name, now } => {
                let row = self.db.query_row(db::LIVE_FOR_NAME, (name, now), |_| Ok(()));
                seen.live_for_name = Some(row.is_ok());
            }
            Ask::LiveForAddress { address, now } => {
                let row = self.db.query_row(db::LIVE_FOR_ADDRESS, (address, now), |_| Ok(()));
                seen.live_for_address = Some(row.is_ok());
            }
            Ask::Insert(o) => {
                let row = (
                    o.offer_id,
                    o.event_json,
                    o.name,
                    o.seller,
                    o.buyer,
                    o.price,
                    o.proof_address,
                    o.expiration,
                    o.created_at,
                );
                seen.inserted = Some(match outcome(self.db.execute(db::INSERT_OFFER, row)) {
                    Outcome::Rows(_) => Inserted::Stored,
                    Outcome::Constraint => Inserted::Exists,
                    Outcome::Failed => Inserted::Failed,
                });
            }
            Ask::Kernel { excess } => {
                seen.kernel = Some(self.node.as_ref().and_then(|n| n.kernel(&excess).ok()));
            }
            Ask::ExcessUsed { excess } => {
                let row = self.db.query_row(db::EXCESS_USED, [excess], |_| Ok(()));
                seen.excess_used = Some(row.is_ok());
            }
            Ask::NameOf { pubkey } => seen.buyer_name = Some(self.name_of(&pubkey)),
            Ask::Execute(plan) => seen.executed = Some(self.execute(&plan)),
            Ask::Arm { bucket, key } => {
                self.limits.record_op(&format!("{bucket}:{key}"), self.clock);
                seen.armed = true;
            }
        }
    }

    fn send(&mut self, handler: impl Fn(&App, &Seen) -> Step<String>) -> (u16, Value) {
        let mut seen = Seen::new();
        for _ in 0..20 {
            match handler(self, &seen) {
                Step::Reply(r) => return (r.status, json_of(&r)),
                Step::Ask(a) => self.perform(a, &mut seen),
            }
        }
        panic!("a handler must not ask forever");
    }

    fn lodge_raw(&mut self, seller: &Keys, offer: Value, ip: &str) -> (u16, Value) {
        let body = object(vec![("offer", offer)]).to_string().into_bytes();
        let auth = nip98_header(seller, "POST", "/api/v1/transfer/offer", &body, 0);
        let req = request(Some(auth), body, ip);
        self.send(|app, seen| lodge_offer(&app.cfg, &req, seen))
    }

    fn lodge(&mut self, seller: &Keys, event: &nostr::Event, ip: &str) -> (u16, Value) {
        let ev: Value = serde_json::from_str(&event.as_json()).unwrap();
        self.lodge_raw(seller, ev, ip)
    }

    /// Lodge a standard offer for `name` owned by `seller`, to `buyer`, paid to
    /// `recipient_addr`. Returns the offer_id.
    fn lodge_ok(&mut self, seller: &Keys, name: &str, buyer: &Keys, addr: &str) -> String {
        let buyer = buyer.public_key().to_hex();
        let ev = offer_event(seller, name, DOMAIN, &buyer, PRICE_STR, addr, now() + 3600);
        let (status, json) = self.lodge(seller, &ev, "10.1.0.1");
        assert_eq!(status, 201, "lodge failed: {json}");
        json["offer_id"].as_str().unwrap().to_string()
    }

    fn read(&mut self, offer_id: &str, ip: &str) -> (u16, Value) {
        let req = request(None, Vec::new(), ip);
        self.send(|_, seen| read_offer(offer_id, &req, seen))
    }

    fn revoke(&mut self, seller: &Keys, offer_id: &str, ip: &str) -> (u16, Value) {
        self.revoke_aged(seller, offer_id, ip, 0)
    }

    fn revoke_aged(&mut self, seller: &Keys, offer_id: &str, ip: &str, age: i64) -> (u16, Value) {
        let path = format!("/api/v1/transfer/offer/{offer_id}");
        let req = request(Some(nip98_header(seller, "DELETE", &path, &[], age)), Vec::new(), ip);
        self.send(|app, seen| revoke_offer(&app.cfg, offer_id, &req, seen))
    }

    fn claim(&mut self, buyer: &Keys, offer_id: &str, proof: &Value, ip: &str) -> (u16, Value) {
        self.claim_aged(buyer, offer_id, proof, ip, 0)
    }

    fn claim_aged(
        &mut self,
        buyer: &Keys,
        offer_id: &str,
        proof: &Value,
        ip: &str,
        age_secs: i64,
    ) -> (u16, Value) {
        let body = object(vec![("offer_id", Value::from(offer_id)), ("proof", proof.clone())])
            .to_string()
            .into_bytes();
        let auth = nip98_header(buyer, "POST", "/api/v1/transfer/claim", &body, age_secs);
        let req = request(Some(auth), body, ip);
        self.send(|app, seen| claim(&app.cfg, &req, seen))
    }
}

fn request(authorization: Option<String>, body: Vec<u8>, ip: &str) -> Request {
    Request { real_ip: Some(ip.into()), authorization, body }
}

fn object(fields: Vec<(&str, Value)>) -> Value {
    let mut object = serde_json::Map::new();
    for (k, v) in fields {
        object.insert(k.to_string(), v);
    }
    Value::Object(object)
}

// --- NIP-98 auth ------------------------------------------------------------

fn nip98_header(keys: &Keys, method: &str, path: &str, body: &[u8], age_secs: i64) -> String {
    let url = format!("{BASE_URL}{path}");
    let mut tags = vec![
        Tag::parse(["u", url.as_str()]).unwrap(),
        Tag::parse(["method", method]).unwrap(),
    ];
    if !body.is_empty() {
        let payload = hex::encode(<sha2::Sha256 as sha2::Digest>::digest(body));
        tags.push(Tag::parse(["payload", payload.as_str()]).unwrap());
    }
    let created = now() - age_secs;
    let event = EventBuilder::new(Kind::HttpAuth, "")
        .tags(tags)
        .custom_created_at(Timestamp::from_secs(created as u64))
        .sign_with_keys(keys)
        .unwrap();
    format!(
        "Nostr {}",
        base64::engine::general_purpose::STANDARD.encode(event.as_json())
    )
}

// --- offer / proof builders -------------------------------------------------

/// Build a signed kind-3402 offer event.
fn offer_event(
    seller: &Keys,
    name: &str,
    domain: &str,
    buyer_hex: &str,
    price: &str,
    proof_addr: &str,
    expiration: i64,
) -> nostr::Event {
    let expiration = expiration.to_string();
    let tags = vec![
        Tag::parse(["name", name]).unwrap(),
        Tag::parse(["domain", domain]).unwrap(),
        Tag::parse(["p", buyer_hex]).unwrap(),
        Tag::parse(["price", price]).unwrap(),
        Tag::parse(["proof_address", proof_addr]).unwrap(),
        Tag::parse(["expiration", expiration.as_str()]).unwrap(),
    ];
    EventBuilder::new(Kind::Custom(3402), "").tags(tags).sign_with_keys(seller).unwrap()
}

/// A fresh Grin wallet: ed25519 signing key + its grin1 slatepack address.
fn grin_wallet() -> (SigningKey, String) {
    let mut seed = [0u8; 32];
    OsRng.fill_bytes(&mut seed);
    let sk = SigningKey::from_bytes(&seed);
    let addr = grin_address_from_pubkey(&sk.verifying_key().to_bytes(), "grin");
    (sk, addr)
}

fn rand_excess() -> [u8; 33] {
    let mut e = [0u8; 33];
    OsRng.fill_bytes(&mut e);
    e
}

/// Build a real six-field Grin payment proof, both signatures over the genuine
/// 73-byte message.
fn build_proof(recipient: &SigningKey, sender: &SigningKey, amount: u64, excess: &[u8; 33]) -> Value {
    let excess_hex = hex::encode(excess);
    let sender_pub = sender.verifying_key().to_bytes();
    let recipient_pub = recipient.verifying_key().to_bytes();
    let msg = payment_proof_message(amount, &excess_hex, &sender_pub).unwrap();
    let text = |s: String| Value::String(s);
    object(vec![
        ("amount", text(amount.to_string())),
        ("excess", text(excess_hex)),
        ("recipient_address", text(grin_address_from_pubkey(&recipient_pub, "grin"))),
        ("recipient_sig", text(hex::encode(recipient.sign(&msg).to_bytes()))),
        ("sender_address", text(grin_address_from_pubkey(&sender_pub, "grin"))),
        ("sender_sig", text(hex::encode(sender.sign(&msg).to_bytes()))),
    ])
}

// --- toggle / config --------------------------------------------------------

#[test]
fn transfer_routes_absent_when_disabled() {
    let list = routes(&Config::for_test());
    for (verb, path) in [
        (Verb::Post, "/api/v1/transfer/offer"),
        (Verb::Get, "/api/v1/transfer/offer/{offer_id}"),
        (Verb::Post, "/api/v1/transfer/claim"),
    ] {
        assert!(!list.iter().any(|r| r.verb == verb && r.path == path));
    }
    assert!(!list.iter().any(|r| r.path.contains("transfer")));
    let on = routes(&transfer_app().cfg);
    for (verb, path, endpoint) in [
        (Verb::Post, "/api/v1/transfer/offer", Endpoint::LodgeOffer),
        (Verb::Get, "/api/v1/transfer/offer/{offer_id}", Endpoint::ReadOffer),
        (Verb::Delete, "/api/v1/transfer/offer/{offer_id}", Endpoint::RevokeOffer),
        (Verb::Post, "/api/v1/transfer/claim", Endpoint::Claim),
        (Verb::Get, "/api/v1/paid/{pubkey}", Endpoint::PaidStatus),
        (Verb::Post, "/api/v1/quote", Endpoint::Quote),
        (Verb::Post, "/api/v1/goblinpay/webhook", Endpoint::Webhook),
    ] {
        assert!(on.iter().any(|r| r.verb == verb && r.path == path && r.endpoint == endpoint));
    }
}

// --- lodge state machine ----------------------------------------------------

#[test]
fn lodge_happy_path() {
    let mut app = transfer_app();
    let seller = Keys::generate();
    let buyer = Keys::generate();
    let (_r, addr) = grin_wallet();
    app.seed_name("alice", &seller.public_key().to_hex());
    let id = app.lodge_ok(&seller, "alice", &buyer, &addr);
    assert_eq!(id.len(), 64);
    let row = app.get_offer(&id).unwrap();
    assert_eq!(row.status, "live");
    assert_eq!(row.price_nanogrin, PRICE as i64);
    assert_eq!(row.proof_address, addr);
    assert_eq!(row.seller_pubkey, seller.public_key().to_hex());
    assert_eq!(row.buyer_pubkey, buyer.public_key().to_hex());
}

#[test]
fn lodge_duplicate_live_offer_for_name_conflicts() {
    let mut app = transfer_app();
    let seller = Keys::generate();
    let buyer = Keys::generate();
    let (_r, addr) = grin_wallet();
    app.seed_name("alice", &seller.public_key().to_hex());
    app.lodge_ok(&seller, "alice", &buyer, &addr);

    // A second live offer for the same name, with a DIFFERENT binding so this
    // is offer_exists and not offer_ambiguous.
    let (_r2, addr2) = grin_wallet();
    let buyer = buyer.public_key().to_hex();
    let ev = offer_event(&seller, "alice", DOMAIN, &buyer, "999", &addr2, now() + 3600);
    let (status, json) = app.lodge(&seller, &ev, "10.1.0.2");
    assert_eq!(status, 409);
    assert_eq!(json["error"], "offer_exists");
}

#[test]
fn lodge_ambiguous_binding_conflicts() {
    let mut app = transfer_app();
    let (seller1, seller2) = (Keys::generate(), Keys::generate());
    let buyer = Keys::generate();
    let (_r, addr) = grin_wallet();
    app.seed_name("alice", &seller1.public_key().to_hex());
    app.seed_name("bob", &seller2.public_key().to_hex());

    // Two different names, same proof_address: blocked at the second even
    // though the price differs.
    app.lodge_ok(&seller1, "alice", &buyer, &addr);
    let buyer = buyer.public_key().to_hex();
    let ev = offer_event(&seller2, "bob", DOMAIN, &buyer, "123456789", &addr, now() + 3600);
    let (status, json) = app.lodge(&seller2, &ev, "10.1.0.3");
    assert_eq!(status, 409);
    assert_eq!(json["error"], "offer_ambiguous");
}

#[test]
fn lodge_distinct_addresses_same_price_ok() {
    let mut app = transfer_app();
    let (seller1, seller2) = (Keys::generate(), Keys::generate());
    let buyer1 = Keys::generate();
    let buyer2 = Keys::generate();
    let (_r1, addr1) = grin_wallet();
    let (_r2, addr2) = grin_wallet();
    app.seed_name("alice", &seller1.public_key().to_hex());
    app.seed_name("bob", &seller2.public_key().to_hex());

    // Fresh per-sale addresses: two live offers with the identical price are
    // fine, the unique address alone disambiguates the sales.
    app.lodge_ok(&seller1, "alice", &buyer1, &addr1);
    app.lodge_ok(&seller2, "bob", &buyer2, &addr2);
}

#[test]
fn lodge_wrong_domain_rejected() {
    let mut app = transfer_app();
    let seller = Keys::generate();
    let buyer = Keys::generate().public_key().to_hex();
    let (_r, addr) = grin_wallet();
    app.seed_name("alice", &seller.public_key().to_hex());
    let ev = offer_event(&seller, "alice", "evil.example", &buyer, PRICE_STR, &addr, now() + 3600);
    let (status, json) = app.lodge(&seller, &ev, "10.1.0.4");
    assert_eq!(status, 400);
    assert_eq!(json["error"], "invalid offer");
}

#[test]
fn lodge_bad_expiry_rejected() {
    let mut app = transfer_app();
    let seller = Keys::generate();
    let buyer = Keys::generate().public_key().to_hex();
    let (_r, addr) = grin_wallet();
    app.seed_name("alice", &seller.public_key().to_hex());
    // In the past.
    let past = offer_event(&seller, "alice", DOMAIN, &buyer, PRICE_STR, &addr, now() - 10);
    let (s1, _) = app.lodge(&seller, &past, "10.1.0.5");
    assert_eq!(s1, 400);
    // Beyond max TTL.
    let far = offer_event(&seller, "alice", DOMAIN, &buyer, PRICE_STR, &addr, now() + 10_000_000);
    let (s2, _) = app.lodge(&seller, &far, "10.1.0.6");
    assert_eq!(s2, 400);
}

#[test]
fn lodge_missing_tag_rejected() {
    let mut app = transfer_app();
    let seller = Keys::generate();
    let buyer = Keys::generate().public_key().to_hex();
    app.seed_name("alice", &seller.public_key().to_hex());
    // Drop the proof_address tag entirely.
    let expiration = (now() + 3600).to_string();
    let tags = vec![
        Tag::parse(["name", "alice"]).unwrap(),
        Tag::parse(["domain", DOMAIN]).unwrap(),
        Tag::parse(["p", buyer.as_str()]).unwrap(),
        Tag::parse(["price", PRICE_STR]).unwrap(),
        Tag::parse(["expiration", expiration.as_str()]).unwrap(),
    ];
    let ev = EventBuilder::new(Kind::Custom(3402), "").tags(tags).sign_with_keys(&seller).unwrap();
    let (status, json) = app.lodge(&seller, &ev, "10.1.0.7");
    assert_eq!(status, 400);
    assert_eq!(json["error"], "invalid offer");
}

#[test]
fn lodge_bad_signature_rejected() {
    let mut app = transfer_app();
    let seller = Keys::generate();
    let buyer = Keys::generate().public_key().to_hex();
    let (_r, addr) = grin_wallet();
    app.seed_name("alice", &seller.public_key().to_hex());
    let ev = offer_event(&seller, "alice", DOMAIN, &buyer, PRICE_STR, &addr, now() + 3600);
    // Corrupt the signature but keep valid JSON.
    let mut v: Value = serde_json::from_str(&ev.as_json()).unwrap();
    let sig = v["sig"].as_str().unwrap().to_string();
    let mut bad = sig.clone();
    bad.replace_range(0..2, if sig.starts_with("00") { "ff" } else { "00" });
    v["sig"] = Value::String(bad);
    let (status, json) = app.lodge_raw(&seller, v, "10.1.0.8");
    assert_eq!(status, 400);
    assert_eq!(json["error"], "invalid offer");
}

#[test]
fn lodge_non_owner_rejected() {
    let mut app = transfer_app();
    let seller = Keys::generate();
    let buyer = Keys::generate().public_key().to_hex();
    let (_r, addr) = grin_wallet();
    // Nobody owns "alice".
    let ev = offer_event(&seller, "alice", DOMAIN, &buyer, PRICE_STR, &addr, now() + 3600);
    let (status, json) = app.lodge(&seller, &ev, "10.1.0.9");
    assert_eq!(status, 403);
    assert_eq!(json["error"], "not the owner");
}

#[test]
fn lodge_refuses_what_is_no_offer() {
    let mut app = transfer_app();
    let seller = Keys::generate();
    let other = Keys::generate();
    let buyer = Keys::generate().public_key().to_hex();
    let (_r, addr) = grin_wallet();
    app.seed_name("alice", &seller.public_key().to_hex());
    let invalid = |r: (u16, Value)| {
        assert_eq!(r.0, 400);
        assert_eq!(r.1["error"], "invalid offer");
    };
    invalid(app.lodge_raw(&seller, Value::from("x"), "10.1.1.1"));
    // Another kind of event.
    let note = EventBuilder::new(Kind::TextNote, "").sign_with_keys(&seller).unwrap();
    invalid(app.lodge(&seller, &note, "10.1.1.2"));
    // Signed by somebody else than the request.
    let ev = offer_event(&other, "alice", DOMAIN, &buyer, PRICE_STR, &addr, now() + 3600);
    let (status, json) = app.lodge(&seller, &ev, "10.1.1.3");
    assert_eq!(status, 401);
    assert_eq!(json["error"], "auth pubkey does not match offer pubkey");
    // A name, a buyer, a price, an address and a time that are none.
    let t = now() + 3600;
    let make = |name: &str, buyer: &str, price: &str, addr: &str| {
        offer_event(&seller, name, DOMAIN, buyer, price, addr, t)
    };
    for ev in [
        make("Al", &buyer, PRICE_STR, &addr),
        make("alice", "nobody", PRICE_STR, &addr),
        make("alice", &buyer, "-1", &addr),
        make("alice", &buyer, PRICE_STR, "grin1"),
    ] {
        invalid(app.lodge(&seller, &ev, "10.1.1.4"));
    }
    // A body without an offer.
    let auth = nip98_header(&seller, "POST", "/api/v1/transfer/offer", b"{}", 0);
    let req = request(Some(auth), b"{}".to_vec(), "10.1.1.5");
    invalid(app.send(|app, seen| lodge_offer(&app.cfg, &req, seen)));
    let auth = nip98_header(&seller, "POST", "/api/v1/transfer/offer", b"{", 0);
    let req = request(Some(auth), b"{".to_vec(), "10.1.1.6");
    invalid(app.send(|app, seen| lodge_offer(&app.cfg, &req, seen)));
}

#[test]
fn lodging_the_same_offer_again_conflicts() {
    let mut app = transfer_app();
    let seller = Keys::generate();
    let buyer = Keys::generate().public_key().to_hex();
    let (_r, addr) = grin_wallet();
    app.seed_name("alice", &seller.public_key().to_hex());
    let ev = offer_event(&seller, "alice", DOMAIN, &buyer, PRICE_STR, &addr, now() + 3600);
    let (s, json) = app.lodge(&seller, &ev, "10.1.2.1");
    assert_eq!(s, 201);
    assert_eq!(json["name"], "alice");
    assert!(json["expires_at"].as_i64().unwrap() > now());
    // Revoked, it is not live any more; but its id is taken.
    let id = json["offer_id"].as_str().unwrap().to_string();
    assert_eq!(app.revoke(&seller, &id, "10.1.2.2").0, 200);
    let body = object(vec![("offer", serde_json::from_str(&ev.as_json()).unwrap())])
        .to_string()
        .into_bytes();
    let auth = nip98_header(&seller, "POST", "/api/v1/transfer/offer", &body, 2);
    let req = request(Some(auth), body, "10.1.2.3");
    let (s, json) = app.send(|app, seen| lodge_offer(&app.cfg, &req, seen));
    assert_eq!(s, 409);
    assert_eq!(json["error"], "offer_exists");
}

// --- revoke -----------------------------------------------------------------

#[test]
fn revoke_happy_then_status_revoked() {
    let mut app = transfer_app();
    let seller = Keys::generate();
    let buyer = Keys::generate();
    let (_r, addr) = grin_wallet();
    app.seed_name("alice", &seller.public_key().to_hex());
    let id = app.lodge_ok(&seller, "alice", &buyer, &addr);

    let (status, json) = app.revoke(&seller, &id, "10.2.0.1");
    assert_eq!(status, 200);
    assert_eq!(json["status"], "revoked");

    let (s, j) = app.read(&id, "10.2.0.2");
    assert_eq!(s, 200);
    assert_eq!(j["status"], "revoked");
    assert_eq!(j["offer"]["id"], id.as_str());

    // Once more: the same answer, and the record of its death stays.
    app.node().set_tip(2000);
    let (status, json) = app.revoke_aged(&seller, &id, "10.2.0.3", 2);
    assert_eq!((status, json["status"] == "revoked"), (200, true));
    assert_eq!(app.get_offer(&id).unwrap().end_height, Some(1000));
}

#[test]
fn revoke_not_owner_rejected() {
    let mut app = transfer_app();
    let seller = Keys::generate();
    let stranger = Keys::generate();
    let buyer = Keys::generate();
    let (_r, addr) = grin_wallet();
    app.seed_name("alice", &seller.public_key().to_hex());
    let id = app.lodge_ok(&seller, "alice", &buyer, &addr);
    let (status, json) = app.revoke(&stranger, &id, "10.2.0.3");
    assert_eq!(status, 403);
    assert_eq!(json["error"], "not the owner");
}

#[test]
fn revoke_consumed_conflicts() {
    let mut app = transfer_app();
    let seller = Keys::generate();
    let buyer = Keys::generate();
    let (recipient, addr) = grin_wallet();
    let (sender, _) = grin_wallet();
    app.seed_name("alice", &seller.public_key().to_hex());
    let id = app.lodge_ok(&seller, "alice", &buyer, &addr);

    let excess = rand_excess();
    let proof = build_proof(&recipient, &sender, PRICE, &excess);
    app.node().set_kernel(&hex::encode(excess), 900, 10);
    let (s, _) = app.claim(&buyer, &id, &proof, "10.2.0.4");
    assert_eq!(s, 201);

    // Revoking a consumed offer conflicts.
    let (status, json) = app.revoke(&seller, &id, "10.2.0.5");
    assert_eq!(status, 409);
    assert_eq!(json["error"], "offer_consumed");
}

#[test]
fn revoking_an_expired_offer_keeps_its_death() {
    let mut app = transfer_app();
    let seller = Keys::generate();
    let buyer = Keys::generate();
    let (_r, addr) = grin_wallet();
    app.seed_name("alice", &seller.public_key().to_hex());
    let id = app.lodge_ok(&seller, "alice", &buyer, &addr);
    app.db
        .execute("UPDATE offers SET expiration = ?2 WHERE offer_id = ?1", (&id, now() - 10))
        .unwrap();
    assert_eq!(app.read(&id, "10.2.1.1").1["status"], "expired");
    let died = app.get_offer(&id).unwrap();
    app.node().set_tip(5000);
    assert_eq!(app.revoke(&seller, &id, "10.2.1.2").0, 200);
    let row = app.get_offer(&id).unwrap();
    assert_eq!(row.status, "revoked");
    assert_eq!((row.end_height, row.state_changed_at), (died.end_height, died.state_changed_at));
}

#[test]
fn unknown_offers_are_not_found() {
    let mut app = transfer_app();
    let keys = Keys::generate();
    assert_eq!(app.read("nothing", "10.2.2.1").0, 404);
    assert_eq!(app.revoke(&keys, "nothing", "10.2.2.2").0, 404);
    let (recipient, _) = grin_wallet();
    let proof = build_proof(&recipient, &recipient, 1, &rand_excess());
    let (s, j) = app.claim(&keys, &"ab".repeat(32), &proof, "10.2.2.3");
    assert_eq!((s, j["error"] == "not found"), (404, true));
    app.cfg.read_rate_max = 0;
    let (s, j) = app.read("nothing", "10.2.2.4");
    assert_eq!((s, j["error"] == "rate_limited"), (429, true));
}

#[test]
fn offer_expiry_transitions_on_read() {
    let mut app = transfer_app();
    let seller = Keys::generate();
    let buyer = Keys::generate();
    let (_r, addr) = grin_wallet();
    app.seed_name("alice", &seller.public_key().to_hex());
    let id = app.lodge_ok(&seller, "alice", &buyer, &addr);

    // Force the stored expiration into the past, then read: it settles expired
    // and records the chain tip (1000) as end_height.
    app.db
        .execute("UPDATE offers SET expiration = ?2 WHERE offer_id = ?1", (&id, now() - 10))
        .unwrap();
    let (status, json) = app.read(&id, "10.2.0.6");
    assert_eq!(status, 200);
    assert_eq!(json["status"], "expired");
    let end: Option<i64> = app
        .db
        .query_row("SELECT end_height FROM offers WHERE offer_id = ?1", [&id], |r| r.get(0))
        .unwrap();
    assert_eq!(end, Some(1000));
}

// --- late claim rules -------------------------------------------------------

#[test]
fn late_claim_within_grace_and_below_end_height_honored() {
    let mut app = transfer_app();
    let seller = Keys::generate();
    let buyer = Keys::generate();
    let (recipient, addr) = grin_wallet();
    let (sender, _) = grin_wallet();
    app.seed_name("alice", &seller.public_key().to_hex());
    let id = app.lodge_ok(&seller, "alice", &buyer, &addr);

    // Payment settled at height 900; the offer is revoked with the tip at 1000.
    let excess = rand_excess();
    let proof = build_proof(&recipient, &sender, PRICE, &excess);
    app.node().set_kernel(&hex::encode(excess), 900, 10);
    app.node().set_tip(1000);
    let (s, _) = app.revoke(&seller, &id, "10.3.0.1");
    assert_eq!(s, 200);

    // 900 <= 1000 and within grace: the claim is still honored.
    let (status, json) = app.claim(&buyer, &id, &proof, "10.3.0.2");
    assert_eq!(status, 201, "{json}");
    assert_eq!(json["pubkey"], buyer.public_key().to_hex());
}

#[test]
fn late_claim_kernel_above_end_height_gone() {
    let mut app = transfer_app();
    let seller = Keys::generate();
    let buyer = Keys::generate();
    let (recipient, addr) = grin_wallet();
    let (sender, _) = grin_wallet();
    app.seed_name("alice", &seller.public_key().to_hex());
    let id = app.lodge_ok(&seller, "alice", &buyer, &addr);

    // Revoke at tip 1000, but the kernel only lands later at height 2000.
    let excess = rand_excess();
    let proof = build_proof(&recipient, &sender, PRICE, &excess);
    app.node().set_tip(1000);
    let (s, _) = app.revoke(&seller, &id, "10.3.0.3");
    assert_eq!(s, 200);
    app.node().set_kernel(&hex::encode(excess), 2000, 10);

    let (status, json) = app.claim(&buyer, &id, &proof, "10.3.0.4");
    assert_eq!(status, 410);
    assert_eq!(json["error"], "offer_revoked");
}

#[test]
fn late_claim_outside_grace_gone() {
    let mut app = transfer_app();
    let seller = Keys::generate();
    let buyer = Keys::generate();
    let (recipient, addr) = grin_wallet();
    let (sender, _) = grin_wallet();
    app.seed_name("alice", &seller.public_key().to_hex());
    let id = app.lodge_ok(&seller, "alice", &buyer, &addr);

    let excess = rand_excess();
    let proof = build_proof(&recipient, &sender, PRICE, &excess);
    app.node().set_kernel(&hex::encode(excess), 900, 10);
    app.node().set_tip(1000);
    let (s, _) = app.revoke(&seller, &id, "10.3.0.5");
    assert_eq!(s, 200);
    // Push the state change well outside the grace window.
    app.db
        .execute(
            "UPDATE offers SET state_changed_at = ?2 WHERE offer_id = ?1",
            (&id, now() - 200_000),
        )
        .unwrap();

    let (status, json) = app.claim(&buyer, &id, &proof, "10.3.0.6");
    assert_eq!(status, 410);
    assert_eq!(json["error"], "offer_revoked");
}

#[test]
fn expiry_without_a_node_fails_closed() {
    let mut app = transfer_app();
    let seller = Keys::generate();
    let buyer = Keys::generate();
    let (recipient, addr) = grin_wallet();
    let (sender, _) = grin_wallet();
    app.seed_name("alice", &seller.public_key().to_hex());
    let id = app.lodge_ok(&seller, "alice", &buyer, &addr);
    let excess = rand_excess();
    let proof = build_proof(&recipient, &sender, PRICE, &excess);
    app.node().set_kernel(&hex::encode(excess), 900, 10);
    app.node().fail_tip(true);
    app.db
        .execute("UPDATE offers SET expiration = ?2 WHERE offer_id = ?1", (&id, now() - 10))
        .unwrap();
    let (status, json) = app.claim(&buyer, &id, &proof, "10.3.1.1");
    assert_eq!(status, 410);
    assert_eq!(json["error"], "offer_expired");
    assert_eq!(app.get_offer(&id).unwrap().end_height, None);
}

// --- claim verification -----------------------------------------------------

#[test]
fn claim_bad_recipient_sig_rejected() {
    let mut app = transfer_app();
    let seller = Keys::generate();
    let buyer = Keys::generate();
    let (recipient, addr) = grin_wallet();
    let (sender, _) = grin_wallet();
    app.seed_name("alice", &seller.public_key().to_hex());
    let id = app.lodge_ok(&seller, "alice", &buyer, &addr);

    let excess = rand_excess();
    let mut proof = build_proof(&recipient, &sender, PRICE, &excess);
    let mut sig = proof["recipient_sig"].as_str().unwrap().to_string();
    sig.replace_range(0..2, "ff");
    proof["recipient_sig"] = Value::String(sig);
    app.node().set_kernel(&hex::encode(excess), 900, 10);
    let (status, json) = app.claim(&buyer, &id, &proof, "10.4.0.1");
    assert_eq!(status, 400);
    assert_eq!(json["error"], "invalid proof");
}

#[test]
fn claim_bad_sender_sig_rejected() {
    let mut app = transfer_app();
    let seller = Keys::generate();
    let buyer = Keys::generate();
    let (recipient, addr) = grin_wallet();
    let (sender, _) = grin_wallet();
    app.seed_name("alice", &seller.public_key().to_hex());
    let id = app.lodge_ok(&seller, "alice", &buyer, &addr);

    let excess = rand_excess();
    let mut proof = build_proof(&recipient, &sender, PRICE, &excess);
    let mut sig = proof["sender_sig"].as_str().unwrap().to_string();
    sig.replace_range(0..2, "ff");
    proof["sender_sig"] = Value::String(sig);
    app.node().set_kernel(&hex::encode(excess), 900, 10);
    let (status, json) = app.claim(&buyer, &id, &proof, "10.4.0.2");
    assert_eq!(status, 400);
    assert_eq!(json["error"], "invalid proof");
}

#[test]
fn claim_wrong_amount_rejected() {
    let mut app = transfer_app();
    let seller = Keys::generate();
    let buyer = Keys::generate();
    let (recipient, addr) = grin_wallet();
    let (sender, _) = grin_wallet();
    app.seed_name("alice", &seller.public_key().to_hex());
    let id = app.lodge_ok(&seller, "alice", &buyer, &addr);

    // Proof is correctly signed but for a different amount than the price.
    let excess = rand_excess();
    let proof = build_proof(&recipient, &sender, PRICE - 1, &excess);
    app.node().set_kernel(&hex::encode(excess), 900, 10);
    let (status, json) = app.claim(&buyer, &id, &proof, "10.4.0.3");
    assert_eq!(status, 409);
    assert_eq!(json["error"], "proof_amount_mismatch");
}

#[test]
fn claim_wrong_recipient_address_rejected() {
    let mut app = transfer_app();
    let seller = Keys::generate();
    let buyer = Keys::generate();
    let (_offer_recipient, addr) = grin_wallet();
    let (other_recipient, _) = grin_wallet();
    let (sender, _) = grin_wallet();
    app.seed_name("alice", &seller.public_key().to_hex());
    let id = app.lodge_ok(&seller, "alice", &buyer, &addr);

    // Proof pays a DIFFERENT recipient than the offer's proof_address.
    let excess = rand_excess();
    let proof = build_proof(&other_recipient, &sender, PRICE, &excess);
    app.node().set_kernel(&hex::encode(excess), 900, 10);
    let (status, json) = app.claim(&buyer, &id, &proof, "10.4.0.4");
    assert_eq!(status, 409);
    assert_eq!(json["error"], "proof_address_mismatch");
}

#[test]
fn claim_unconfirmed_payment_rejected() {
    let mut app = transfer_app();
    let seller = Keys::generate();
    let buyer = Keys::generate();
    let (recipient, addr) = grin_wallet();
    let (sender, _) = grin_wallet();
    app.seed_name("alice", &seller.public_key().to_hex());
    let id = app.lodge_ok(&seller, "alice", &buyer, &addr);

    // Kernel found but only 3 confirmations (< min_conf 10).
    let excess = rand_excess();
    let proof = build_proof(&recipient, &sender, PRICE, &excess);
    app.node().set_kernel(&hex::encode(excess), 998, 3);
    let (status, json) = app.claim(&buyer, &id, &proof, "10.4.0.5");
    assert_eq!(status, 409);
    assert_eq!(json["error"], "payment_unconfirmed");

    // A kernel the node has never seen is likewise unconfirmed.
    let excess2 = rand_excess();
    let proof2 = build_proof(&recipient, &sender, PRICE, &excess2);
    let (status2, json2) = app.claim(&buyer, &id, &proof2, "10.4.0.6");
    assert_eq!(status2, 409);
    assert_eq!(json2["error"], "payment_unconfirmed");

    // So is every kernel without a node to ask.
    app.node = None;
    let (status3, json3) = app.claim_aged(&buyer, &id, &proof2, "10.4.0.7", 2);
    assert_eq!(status3, 409);
    assert_eq!(json3["error"], "payment_unconfirmed");
}

#[test]
fn claim_wrong_buyer_key_rejected() {
    let mut app = transfer_app();
    let seller = Keys::generate();
    let buyer = Keys::generate();
    let impostor = Keys::generate();
    let (recipient, addr) = grin_wallet();
    let (sender, _) = grin_wallet();
    app.seed_name("alice", &seller.public_key().to_hex());
    let id = app.lodge_ok(&seller, "alice", &buyer, &addr);

    let excess = rand_excess();
    let proof = build_proof(&recipient, &sender, PRICE, &excess);
    app.node().set_kernel(&hex::encode(excess), 900, 10);
    // Signed by the wrong key (not the offer's p tag).
    let (status, json) = app.claim(&impostor, &id, &proof, "10.4.0.7");
    assert_eq!(status, 401);
    assert_eq!(json["error"], "not the buyer");
}

#[test]
fn claim_replayed_excess_rejected() {
    let mut app = transfer_app();
    let seller1 = Keys::generate();
    let seller2 = Keys::generate();
    let buyer1 = Keys::generate();
    let buyer2 = Keys::generate();
    let (recipient, addr) = grin_wallet();
    let (sender, _) = grin_wallet();
    app.seed_name("alice", &seller1.public_key().to_hex());
    app.seed_name("bob", &seller2.public_key().to_hex());

    let excess = rand_excess();
    app.node().set_kernel(&hex::encode(excess), 900, 10);

    // First sale consumes the excess.
    let id1 = app.lodge_ok(&seller1, "alice", &buyer1, &addr);
    let proof = build_proof(&recipient, &sender, PRICE, &excess);
    let (s1, _) = app.claim(&buyer1, &id1, &proof, "10.4.0.8");
    assert_eq!(s1, 201);

    // A second sale (same address+price now that the first is consumed) cannot
    // reuse the same kernel.
    let id2 = app.lodge_ok(&seller2, "bob", &buyer2, &addr);
    let (s2, j2) = app.claim(&buyer2, &id2, &proof, "10.4.0.9");
    assert_eq!(s2, 409);
    assert_eq!(j2["error"], "proof_reused");
}

#[test]
fn claim_buyer_already_has_name_then_release_and_retry() {
    let mut app = transfer_app();
    let seller = Keys::generate();
    let buyer = Keys::generate();
    let (recipient, addr) = grin_wallet();
    let (sender, _) = grin_wallet();
    app.seed_name("alice", &seller.public_key().to_hex());
    // Buyer already owns "oldname".
    app.seed_name("oldname", &buyer.public_key().to_hex());
    let id = app.lodge_ok(&seller, "alice", &buyer, &addr);

    let excess = rand_excess();
    let proof = build_proof(&recipient, &sender, PRICE, &excess);
    app.node().set_kernel(&hex::encode(excess), 900, 10);

    // Rejected while the buyer still holds a name (retryable, non-destructive).
    let (s1, j1) = app.claim(&buyer, &id, &proof, "10.5.0.1");
    assert_eq!(s1, 409);
    assert_eq!(j1["error"], "pubkey already has a name");
    assert_eq!(j1["name"], "oldname");

    // Buyer releases the old name, which arms the buyer's name-change cooldown.
    app.db.execute("UPDATE names SET released_at = 1 WHERE name = 'oldname'", []).unwrap();
    let key = format!("namechange:{}", buyer.public_key().to_hex());
    app.limits.record_op(&key, app.clock);
    assert!(app.cooldown_active("namechange", &buyer.public_key().to_hex(), 600));

    // Retry: the claim is EXEMPT from the name-change cooldown, so it succeeds.
    // (Aged auth event so it is a distinct, non-replayed NIP-98 request.)
    let (s2, j2) = app.claim_aged(&buyer, &id, &proof, "10.5.0.3", 2);
    assert_eq!(s2, 201, "{j2}");
    assert_eq!(j2["pubkey"], buyer.public_key().to_hex());
}

#[test]
fn successful_claim_reassigns_consumes_and_arms_cooldown() {
    let mut app = transfer_app();
    let seller = Keys::generate();
    let buyer = Keys::generate();
    let (recipient, addr) = grin_wallet();
    let (sender, _) = grin_wallet();
    app.seed_name("alice", &seller.public_key().to_hex());
    let id = app.lodge_ok(&seller, "alice", &buyer, &addr);

    let excess = rand_excess();
    let proof = build_proof(&recipient, &sender, PRICE, &excess);
    app.node().set_kernel(&hex::encode(excess), 900, 10);

    let (status, json) = app.claim(&buyer, &id.to_uppercase(), &proof, "10.6.0.1");
    assert_eq!(status, 201);
    assert_eq!(json["name"], "alice");
    assert_eq!(json["nip05"], "alice@floonet.example");
    assert_eq!(json["pubkey"], buyer.public_key().to_hex());

    // Name reassigned to the buyer.
    assert_eq!(app.lookup("alice"), Some(buyer.public_key().to_hex()));
    assert_eq!(app.name_of(&seller.public_key().to_hex()), None);
    // Offer consumed.
    let (_, st) = app.read(&id, "10.6.0.2");
    assert_eq!(st["status"], "consumed");
    // Seller's name-change cooldown armed (consistent with a release).
    assert!(app.cooldown_active("namechange", &seller.public_key().to_hex(), 600));

    // Idempotent retry with the same (offer_id, excess): 200, same body.
    // (Aged auth event so it is a distinct, non-replayed NIP-98 request.)
    let (rs, rj) = app.claim_aged(&buyer, &id, &proof, "10.6.0.3", 2);
    assert_eq!(rs, 200);
    assert_eq!(rj["name"], "alice");
    assert_eq!(rj["nip05"], "alice@floonet.example");
    assert_eq!(rj["pubkey"], buyer.public_key().to_hex());

    // Another payment for the same offer finds it consumed.
    let other = build_proof(&recipient, &sender, PRICE, &rand_excess());
    let (os, oj) = app.claim_aged(&buyer, &id, &other, "10.6.0.4", 3);
    assert_eq!((os, oj["error"] == "offer_consumed"), (409, true));
}

#[test]
fn transfers_work_with_pay_mode_active() {
    // Transfers and paid-names are independently toggleable: with
    // FLOONET_PAY_MODE=name active, a transfer claim still completes, and asks
    // the paywall for nothing.
    let mut app = transfer_app();
    app.cfg.pay_mode = PayMode::Name;
    app.cfg.name_price_nanogrin = 1_500_000_000;
    app.cfg.write_price_nanogrin = 500_000_000;

    let seller = Keys::generate();
    let buyer = Keys::generate();
    let (recipient, addr) = grin_wallet();
    let (sender, _) = grin_wallet();
    app.seed_name("alice", &seller.public_key().to_hex());
    let id = app.lodge_ok(&seller, "alice", &buyer, &addr);

    let excess = rand_excess();
    let proof = build_proof(&recipient, &sender, PRICE, &excess);
    app.node().set_kernel(&hex::encode(excess), 900, 10);
    let (status, json) = app.claim(&buyer, &id, &proof, "10.7.0.1");
    assert_eq!(status, 201, "{json}");
    assert_eq!(json["pubkey"], buyer.public_key().to_hex());
    assert_eq!(json["nip05"], "alice@floonet.example");
}

#[test]
fn claim_after_the_name_moved_conflicts() {
    let mut app = transfer_app();
    let seller = Keys::generate();
    let buyer = Keys::generate();
    let (recipient, addr) = grin_wallet();
    app.seed_name("alice", &seller.public_key().to_hex());
    let id = app.lodge_ok(&seller, "alice", &buyer, &addr);
    app.db.execute("UPDATE names SET pubkey = 'other' WHERE name = 'alice'", []).unwrap();
    let proof = build_proof(&recipient, &recipient, PRICE, &rand_excess());
    let (s, j) = app.claim(&buyer, &id, &proof, "10.7.1.1");
    assert_eq!((s, j["error"] == "owner_changed"), (409, true));
}

#[test]
fn claim_bodies_that_are_none() {
    let why = |body: &str| match read_claim(body.as_bytes()) {
        Ok(_) => panic!("a claim"),
        Err(e) => e,
    };
    let id = "ab".repeat(32);
    assert_eq!(why("not json"), "invalid body");
    assert_eq!(why("{}"), "invalid body");
    assert_eq!(why("{\"offer_id\":\"ab\"}"), "invalid body");
    assert_eq!(why(&format!("{{\"offer_id\":\"{}\"}}", "zz".repeat(32))), "invalid body");
    assert_eq!(why(&format!("{{\"offer_id\":\"{id}\"}}")), "invalid body");
    assert_eq!(why(&format!("{{\"offer_id\":\"{id}\",\"proof\":{{}}}}")), "invalid proof");
}

// --- the decisions, on given values ------------------------------------------

fn row(status: &str) -> OfferRow {
    OfferRow {
        offer_id: "o".into(),
        event_json: "{}".into(),
        name: "alice".into(),
        seller_pubkey: "seller".into(),
        buyer_pubkey: "buyer".into(),
        price_nanogrin: 5,
        proof_address: "grin1x".into(),
        expiration: 100,
        status: status.into(),
        end_height: None,
        state_changed_at: None,
        created_at: 1,
    }
}

fn fitting_proof() -> ParsedPaymentProof {
    ParsedPaymentProof {
        amount: 5,
        excess_hex: "ee".into(),
        recipient_address: " GRIN1X ".into(),
        recipient_sig_hex: String::new(),
        sender_address: String::new(),
        sender_sig_hex: String::new(),
    }
}

/// Everything known that a claim of a live offer needs.
fn all_known() -> Seen {
    let mut seen = Seen::new();
    seen.offer = Some(Some(row("live")));
    seen.now = Some(50);
    seen.owner = Some(Some("seller".into()));
    seen.kernel =
        Some(Some(KernelResult { found: true, confirmations: 10, height: Some(900) }));
    seen.excess_used = Some(false);
    seen.buyer_name = Some(None);
    seen
}

fn decide(seen: &Seen, signed: bool) -> Step<String> {
    claim_signed(&Config::for_test(), "buyer", "o", &fitting_proof(), signed, seen)
}

fn status_of(step: Step<String>) -> (u16, String) {
    match step {
        Step::Reply(r) => {
            let json = json_of(&r);
            (r.status, json["error"].as_str().unwrap_or("").to_string())
        }
        Step::Ask(_) => panic!("a question"),
    }
}

#[test]
fn a_sale_is_carried_out_once_everything_holds() {
    let mut seen = all_known();
    match decide(&seen, true) {
        Step::Ask(Ask::Execute(p)) => {
            assert_eq!((p.offer_id.as_str(), p.name.as_str()), ("o", "alice"));
            assert_eq!((p.seller.as_str(), p.buyer.as_str()), ("seller", "buyer"));
            assert_eq!((p.price, p.excess.as_str()), (5, "ee"));
            assert_eq!((p.kernel_height, p.at), (Some(900), 50));
        }
        _ => panic!("expected the transfer"),
    }
    assert_eq!(status_of(decide(&seen, false)), (400, "invalid proof".into()));
    seen.executed = Some(Ok(()));
    assert!(matches!(
        decide(&seen, true),
        Step::Ask(Ask::Arm { bucket, key }) if bucket == "namechange" && key == "seller"
    ));
    seen.armed = true;
    assert_eq!(status_of(decide(&seen, true)), (201, String::new()));
    for (err, status, word) in [
        (TxErr::OwnerChanged, 409, "owner_changed"),
        (TxErr::BuyerHasName, 409, "pubkey already has a name"),
        (TxErr::Reused, 409, "proof_reused"),
        (TxErr::Db, 500, "db error"),
    ] {
        seen.executed = Some(Err(err));
        assert_eq!(status_of(decide(&seen, true)), (status, word.to_string()));
    }
}

#[test]
fn negative_prices_match_no_amount() {
    let mut seen = all_known();
    let mut r = row("live");
    r.price_nanogrin = -1;
    seen.offer = Some(Some(r));
    assert_eq!(status_of(decide(&seen, true)), (409, "proof_amount_mismatch".into()));
}

#[test]
fn grace_ends_to_the_second() {
    let mut cfg = Config::for_test();
    cfg.transfer_claim_grace = 10;
    let mut seen = all_known();
    let mut r = row("expired");
    r.end_height = Some(900);
    r.state_changed_at = Some(40);
    seen.offer = Some(Some(r.clone()));
    assert!(matches!(
        claim_signed(&cfg, "buyer", "o", &fitting_proof(), true, &seen),
        Step::Ask(Ask::Execute(_))
    ));
    seen.now = Some(51);
    let late = claim_signed(&cfg, "buyer", "o", &fitting_proof(), true, &seen);
    assert_eq!(status_of(late), (410, "offer_expired".into()));
    // One block too late.
    seen.now = Some(50);
    r.end_height = Some(899);
    seen.offer = Some(Some(r));
    let late = claim_signed(&cfg, "buyer", "o", &fitting_proof(), true, &seen);
    assert_eq!(status_of(late), (410, "offer_expired".into()));
}

#[test]
fn only_ended_offers_are_settled() {
    let mut seen = Seen::new();
    let live = row("live");
    assert!(matches!(settle_expiry(&live, 100, &seen), Ok(r) if r.status == "live"));
    assert!(matches!(settle_expiry(&live, 101, &seen), Err(Ask::Tip)));
    seen.tip = Some(Some(7));
    assert!(matches!(
        settle_expiry(&live, 101, &seen),
        Err(Ask::MarkDead { status, end_height: Some(7), at: 101, .. }) if status == "expired"
    ));
    seen.marked = true;
    assert!(matches!(settle_expiry(&live, 101, &seen), Err(Ask::Reread { .. })));
    seen.reread = Some(Some(row("expired")));
    assert!(matches!(settle_expiry(&live, 101, &seen), Ok(r) if r.status == "expired"));
    seen.reread = Some(None);
    assert!(matches!(settle_expiry(&live, 101, &seen), Ok(r) if r.status == "live"));
    let dead = row("consumed");
    assert!(matches!(settle_expiry(&dead, 101, &Seen::new()), Ok(r) if r.status == "consumed"));
}

#[test]
fn transaction_runs_in_order_and_stops_at_a_failure() {
    let plan = Plan {
        offer_id: "o".to_string(),
        name: "n".to_string(),
        seller: "s".to_string(),
        buyer: "b".to_string(),
        price: 1,
        excess: "e".to_string(),
        kernel_height: Some(3),
        at: 4,
    };
    let run = |outcomes: &[Outcome]| run_claim_txn(&plan, &outcomes.to_vec());
    let one = Outcome::Rows(1);
    assert!(matches!(run(&[]), Txn::Run(Statement::Begin)));
    assert!(matches!(run(&[one]), Txn::Run(Statement::MoveName { .. })));
    assert!(matches!(run(&[one, one]), Txn::Run(Statement::Record(p)) if p.excess == "e"));
    assert!(matches!(
        run(&[one, one, one]),
        Txn::Run(Statement::Consume { offer_id }) if offer_id == "o"
    ));
    assert!(matches!(run(&[one, one, one, one]), Txn::Run(Statement::Commit)));
    assert!(matches!(run(&[one, one, one, one, one]), Txn::Done(Ok(()))));
    for (outcomes, err) in [
        (vec![Outcome::Failed], TxErr::Db),
        (vec![one, Outcome::Rows(0)], TxErr::OwnerChanged),
        (vec![one, Outcome::Rows(2)], TxErr::OwnerChanged),
        (vec![one, Outcome::Constraint], TxErr::BuyerHasName),
        (vec![one, Outcome::Failed], TxErr::Db),
        (vec![one, one, Outcome::Constraint], TxErr::Reused),
        (vec![one, one, Outcome::Failed], TxErr::Db),
        (vec![one, one, one, Outcome::Failed], TxErr::Db),
        (vec![one, one, one, one, Outcome::Failed], TxErr::Db),
    ] {
        assert!(matches!(run(&outcomes), Txn::Done(Err(e)) if e == err));
    }
}

#[test]
fn last_tag_of_a_name_counts() {
    let tag = |parts: &[&str]| parts.iter().map(|s| s.to_string()).collect::<Vec<String>>();
    let mut event = NostrEvent {
        id: "i".into(),
        pubkey: "k".into(),
        created_at: 1,
        kind: 3402,
        tags: vec![
            tag(&["name", "first"]),
            tag(&["domain", DOMAIN]),
            tag(&["p", "b"]),
            tag(&["price", "1"]),
            tag(&["proof_address", "a"]),
            tag(&["expiration", "2"]),
            tag(&[]),
            tag(&["name", "last", "ignored"]),
        ],
        json: "{}".into(),
    };
    assert_eq!(extract_offer_tags(&event).unwrap().name, "last");
    // A later tag without a value takes it away.
    event.tags.push(tag(&["price"]));
    assert!(extract_offer_tags(&event).is_none());
    let step = lodge_signed(&Config::for_test(), "k", &event, &Seen::new());
    assert_eq!(status_of(step), (400, "invalid offer".into()));
}

#[test]
fn lodge_reports_the_store() {
    let tag = |parts: &[&str]| parts.iter().map(|s| s.to_string()).collect::<Vec<String>>();
    let (_, addr) = grin_wallet();
    let upper = "AB".repeat(32);
    let event = NostrEvent {
        id: "i".into(),
        pubkey: "k".into(),
        created_at: 1,
        kind: 3402,
        tags: vec![
            tag(&["name", "alice"]),
            tag(&["domain", DOMAIN]),
            tag(&["p", upper.as_str()]),
            tag(&["price", " 18446744073709551615 "]),
            tag(&["proof_address", addr.as_str()]),
            tag(&["expiration", " 2592001 "]),
        ],
        json: "{\"id\":\"i\"}".into(),
    };
    let cfg = Config::for_test();
    let mut seen = Seen::new();
    seen.now = Some(1);
    seen.owner = Some(Some("k".into()));
    seen.live_for_name = Some(false);
    seen.live_for_address = Some(false);
    match lodge_signed(&cfg, "k", &event, &seen) {
        Step::Ask(Ask::Insert(o)) => {
            assert_eq!(o.buyer, "ab".repeat(32));
            assert_eq!(o.price, -1);
            assert_eq!(o.expiration, 2_592_001);
            assert_eq!(o.event_json, "{\"id\":\"i\"}");
        }
        _ => panic!("expected the offer to be stored"),
    }
    seen.inserted = Some(Inserted::Failed);
    assert_eq!(status_of(lodge_signed(&cfg, "k", &event, &seen)), (500, "db error".into()));
    seen.inserted = Some(Inserted::Exists);
    assert_eq!(status_of(lodge_signed(&cfg, "k", &event, &seen)), (409, "offer_exists".into()));
    // The last second that an offer may end at, and the first it may not.
    seen.now = Some(0);
    assert_eq!(status_of(lodge_signed(&cfg, "k", &event, &seen)), (400, "invalid offer".into()));
    seen.now = Some(2_592_001);
    assert_eq!(status_of(lodge_signed(&cfg, "k", &event, &seen)), (400, "invalid offer".into()));
}
