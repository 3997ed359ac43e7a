//! The paid-resource endpoints, with genuine signed requests, the real tables
//! and a backend in memory.

use base64::Engine;
use floonet_name_authority::auth::{check_event, request_tags, verify_nip98, AuthRequest};
use floonet_name_authority::config::{Config, PayMode};
use floonet_name_authority::db;
use floonet_name_authority::event::NostrEvent;
use floonet_name_authority::handlers::entry::{EntryAsk, Request};
use floonet_name_authority::handlers::paidapi::{
    goblinpay_webhook, paid_status, quote, webhook_verified, Ask, Seen, Step,
};
use floonet_name_authority::handlers::reply::{Body, Field, Reply};
use floonet_name_authority::paid::testing::MockPay;
use floonet_name_authority::paid::{Grant, PaidAsk, PayBackend, Paywall};
use floonet_name_authority::ratelimit::Limits;
use floonet_name_authority::util::unix_now;
use hmac::{Hmac, Mac};
use nostr::{EventBuilder, JsonUtil, Keys, Kind, Tag, Timestamp};
use rusqlite::Connection;
use serde_json::Value;
use sha2::{Digest, Sha256};

const BASE_URL: &str = "https://floonet.example";

/// An `Authorization: Nostr <b64>` header value, signed by `keys`, for the given
/// method/path/body, with `created_at` aged into the past by `age_secs`.
fn nip98_header(keys: &Keys, method: &str, path: &str, body: &[u8], age_secs: i64) -> String {
    let url = format!("{BASE_URL}{path}");
    let mut tags = vec![
        Tag::parse(["u", url.as_str()]).unwrap(),
        Tag::parse(["method", method]).unwrap(),
    ];
    if !body.is_empty() {
        let payload = hex::encode(Sha256::digest(body));
        tags.push(Tag::parse(["payload", payload.as_str()]).unwrap());
    }
    let created = unix_now() - age_secs;
    let event = EventBuilder::new(Kind::HttpAuth, "")
        .tags(tags)
        .custom_created_at(Timestamp::from_secs(created as u64))
        .sign_with_keys(keys)
        .unwrap();
    let b64 = base64::engine::general_purpose::STANDARD.encode(event.as_json());
    format!("Nostr {b64}")
}

struct App {
    cfg: Config,
    db: Connection,
    limits: Limits,
    wall: Option<Paywall<MockPay>>,
    clock: u64,
}

/// The JSON object of an answer.
fn json_of(reply: &Reply<String>) -> Value {
    let mut object = serde_json::Map::new();
    for (key, field) in reply.body.members() {
        let value = match field {
            Field::Text(s) => Value::String(s),
            Field::Signed(n) => Value::from(n),
            Field::Unsigned(n) => Value::from(n),
            Field::Flag(b) => Value::Bool(b),
            Field::Document(s) => serde_json::from_str(&s).unwrap(),
        };
        object.insert(key, value);
    }
    Value::Object(object)
}

impl App {
    fn grant_of(&self, sql: &str, params: &[&str]) -> Option<Grant> {
        self.db
            .query_row(sql, rusqlite::params_from_iter(params), |r| {
                Ok(Grant {
                    pubkey: r.get(0)?,
                    resource: r.get(1)?,
                    invoice_id: r.get(2)?,
                    pay_url: r.get(3)?,
                    amount_nanogrin: r.get::<_, i64>(4)? as u64,
                    status: r.get(5)?,
                })
            })
            .ok()
    }

    fn grant(&self, pubkey: &str, resource: &str) -> Option<Grant> {
        self.grant_of(db::GRANT, &[pubkey, resource])
    }

    fn mock(&mut self) -> &mut MockPay {
        &mut self.wall.as_mut().unwrap().backend
    }

    fn perform(&mut self, ask: Ask<String>, seen: &mut Seen) {
        self.clock += 1;
        match ask {
            Ask::Entry(EntryAsk::AllowRead { ip }) => {
                let key = format!("read:{ip}");
                let (max, window) = (self.cfg.read_rate_max, self.cfg.read_rate_window);
                seen.entry.allowed = Some(self.limits.allow(&key, self.clock, max, window * 1000));
            }
            Ask::Entry(EntryAsk::AllowWrite { bucket, ip }) => {
                let key = format!("write:{bucket}:{ip}");
                let (max, window) = (self.cfg.write_rate_max, self.cfg.write_rate_window);
                seen.entry.allowed = Some(self.limits.allow(&key, self.clock, max, window * 1000));
            }
            Ask::Entry(EntryAsk::AuthTime) => seen.entry.auth_time = Some(unix_now()),
            Ask::Entry(EntryAsk::FreshAuth { id }) => {
                seen.entry.fresh = Some(self.limits.auth_event_fresh(&id, self.clock, 121_000));
            }
            Ask::Grant { pubkey, resource } => seen.grant = Some(self.grant(&pubkey, &resource)),
            Ask::GrantByInvoice { invoice_id } => {
                seen.invoice_grant = Some(self.grant_of(db::GRANT_BY_INVOICE, &[&invoice_id]));
            }
            Ask::InvoiceStatus { invoice_id } => {
                seen.status = Some(self.mock().invoice_status(&invoice_id).ok());
            }
            Ask::MarkPaid { invoice_id } => {
                self.db.execute(db::MARK_GRANT_PAID, (invoice_id, 1i64)).unwrap();
                seen.marked = true;
            }
            Ask::Paid(PaidAsk::Grant { pubkey, resource }) => {
                seen.paid.grant = Some(self.grant(&pubkey, &resource));
            }
            Ask::Paid(PaidAsk::Cooling { bucket, key, window }) => {
                let key = format!("{bucket}:{key}");
                let active = self.limits.cooldown_active(&key, self.clock, window * 1000);
                seen.paid.cooling = Some(active);
            }
            Ask::Paid(PaidAsk::RecordOp { bucket, key }) => {
                self.limits.record_op(&format!("{bucket}:{key}"), self.clock);
                seen.paid.recorded = true;
            }
            Ask::Paid(PaidAsk::InvoiceStatus { invoice_id }) => {
                seen.paid.status = Some(self.mock().invoice_status(&invoice_id));
            }
            Ask::Paid(PaidAsk::MarkPaid { invoice_id }) => {
                self.db.execute(db::MARK_GRANT_PAID, (invoice_id, 1i64)).unwrap();
                seen.paid.marked = true;
            }
            Ask::Paid(PaidAsk::CreateInvoice { order_ref, amount, memo }) => {
                seen.paid.created = Some(self.mock().create_invoice(&order_ref, amount, &memo));
            }
            Ask::Paid(PaidAsk::StoreGrant { pubkey, resource, invoice_id, pay_url, amount }) => {
                let row = (pubkey, resource, invoice_id, pay_url, amount as i64, 1i64);
                self.db.execute(db::PUT_PENDING_GRANT, row).unwrap();
                seen.paid.stored = true;
            }
        }
    }

    fn send(&mut self, handler: impl Fn(&App, &Seen) -> Step<String>) -> (u16, Value) {
        let mut seen = Seen::new();
        for _ in 0..20 {
            match handler(self, &seen) {
                Step::Reply(r) => return (r.status, json_of(&r)),
                Step::Ask(a) => self.perform(a, &mut seen),
            }
        }
        panic!("a handler must not ask forever");
    }

    fn paid(&mut self, pubkey: &str) -> (u16, Value) {
        let req = Request {
            real_ip: Some("10.0.4.1".into()),
            authorization: None,
            body: Vec::new(),
        };
        self.send(|app, seen| paid_status(&app.cfg, app.wall.as_ref(), pubkey, &req, seen))
    }

    fn quote_as(&mut self, header: Option<String>, body: &str, ip: &str) -> (u16, Value) {
        let req = Request {
            real_ip: Some(ip.into()),
            authorization: header,
            body: body.as_bytes().to_vec(),
        };
        let resource = serde_json::from_str::<Value>(body)
            .ok()
            .and_then(|v| v.get("resource").and_then(|r| r.as_str()).map(str::to_string));
        self.send(|app, seen| quote(&app.cfg, app.wall.as_ref(), &req, &resource, seen))
    }

    fn quote(&mut self, keys: &Keys, resource: &str, ip: &str) -> (u16, Value) {
        let body = format!("{{\"resource\":\"{resource}\"}}");
        let auth = nip98_header(keys, "POST", "/api/v1/quote", body.as_bytes(), 0);
        self.quote_as(Some(auth), &body, ip)
    }

    fn webhook(&mut self, signature: Option<String>, payload: &str) -> (u16, Value) {
        let selling = self.wall.is_some();
        self.send(|app, seen| {
            goblinpay_webhook(&app.cfg, selling, &signature, payload.as_bytes(), seen)
        })
    }
}

/// An app in the given paid mode wired to a mock backend.
fn paid_test_app(mode: PayMode) -> App {
    let mut cfg = Config::for_test();
    cfg.pay_mode = mode;
    cfg.goblinpay_webhook_secret = Some("whsec".into());
    let db = Connection::open_in_memory().unwrap();
    db.execute_batch(db::SCHEMA).unwrap();
    App {
        cfg,
        db,
        limits: Limits::new(),
        wall: Some(Paywall {
            backend: MockPay::new(),
            name_price_nanogrin: 1_500_000_000,
            write_price_nanogrin: 500_000_000,
        }),
        clock: 1_000_000,
    }
}

fn sign_webhook(payload: &str) -> String {
    let mut mac = Hmac::<Sha256>::new_from_slice(b"whsec").unwrap();
    mac.update(payload.as_bytes());
    format!("sha256={}", hex::encode(mac.finalize().into_bytes()))
}

#[test]
fn paid_status_reflects_write_grants() {
    let mut app = paid_test_app(PayMode::Write);
    let keys = Keys::generate();
    let pk = keys.public_key().to_hex();

    // No grant: not paid (and no invoice is minted by the public endpoint).
    let (s1, j1) = app.paid(&pk);
    assert_eq!(s1, 200);
    assert_eq!(j1["paid"], false);
    assert_eq!(app.mock().created_count(), 0);

    // Quote write access (NIP-98) -> 402 with the pay URL.
    let (s2, j2) = app.quote(&keys, "write", "10.0.4.2");
    assert_eq!(s2, 402);
    assert_eq!(j2["resource"], "write");
    assert_eq!(j2["price_grin"], "0.5");
    assert_eq!(j2["error"], "payment_required");
    assert_eq!(j2["price_nanogrin"], 500_000_000u64);
    assert_eq!(j2["currency"], "GRIN");
    let invoice_id = j2["invoice_id"].as_str().unwrap().to_string();
    assert!(j2["pay_url"].as_str().unwrap().contains(&invoice_id));

    // Still unpaid until the invoice settles.
    let (_, j3) = app.paid(&pk);
    assert_eq!(j3["paid"], false);

    // Settle; the status endpoint (which the relay plugin polls) flips.
    app.mock().set_status(&invoice_id, "paid");
    let (_, j4) = app.paid(&pk.to_uppercase());
    assert_eq!(j4["paid"], true);
    assert_eq!(j4["pubkey"], pk.as_str());
    // Once paid, a quote says so.
    let (s5, j5) = app.quote_as(
        Some(nip98_header(&keys, "POST", "/api/v1/quote", b"{\"resource\":\"write\"}", 1)),
        "{\"resource\":\"write\"}",
        "10.0.4.3",
    );
    assert_eq!((s5, j5["paid"] == true, j5["pubkey"] == pk.as_str()), (200, true, true));
}

#[test]
fn quote_rejects_resources_not_for_sale() {
    let mut app = paid_test_app(PayMode::Name);
    let keys = Keys::generate();
    let (status, json) = app.quote(&keys, "write", "10.0.5.1");
    assert_eq!(status, 400);
    assert_eq!(json["error"], "resource not for sale on this authority");
}

#[test]
fn paid_status_is_true_when_not_selling_writes() {
    // In `name` mode (and off mode) the relay plugin must see paid=true.
    let mut app = paid_test_app(PayMode::Name);
    let pk = Keys::generate().public_key().to_hex();
    let (status, json) = app.paid(&pk);
    assert_eq!(status, 200);
    assert_eq!(json["paid"], true);
}

#[test]
fn paid_status_knows_only_keys() {
    let mut app = paid_test_app(PayMode::Write);
    let (status, json) = app.paid("not-a-key");
    assert_eq!((status, json["error"] == "not found"), (404, true));
}

#[test]
fn goblinpay_webhook_nudges_grant_to_paid() {
    let mut app = paid_test_app(PayMode::Write);
    let keys = Keys::generate();
    let pk = keys.public_key().to_hex();

    // Create a pending write grant via quote.
    let (_, j) = app.quote(&keys, "write", "10.0.7.1");
    let invoice_id = j["invoice_id"].as_str().unwrap().to_string();

    // Settle at the backend, then deliver the signed webhook nudge.
    app.mock().set_status(&invoice_id, "paid");
    let payload = format!(
        "{{\"event_id\":\"evt-1\",\"event_type\":\"payment.confirmed\",\"invoice_id\":\"{invoice_id}\"}}"
    );
    let (s, j) = app.webhook(Some(sign_webhook(&payload)), &payload);
    assert_eq!(s, 200);
    assert_eq!(j["ok"], true);
    assert_eq!(app.grant(&pk, "write").unwrap().status, "paid");

    // A bad signature is rejected outright.
    let (s, j) = app.webhook(Some("sha256=deadbeef".into()), &payload);
    assert_eq!(s, 401);
    assert_eq!(j["error"], "bad signature");
    let (s, _) = app.webhook(None, &payload);
    assert_eq!(s, 401);
}

#[test]
fn webhook_alone_cannot_grant_unpaid_invoice() {
    // The webhook is only a nudge: if GoblinPay's REST API still says the
    // invoice is open, a signed webhook claiming payment changes nothing.
    let mut app = paid_test_app(PayMode::Write);
    let keys = Keys::generate();
    let pk = keys.public_key().to_hex();
    let (_, j) = app.quote(&keys, "write", "10.0.8.1");
    let invoice_id = j["invoice_id"].as_str().unwrap().to_string();

    // Signed webhook, but the backend still reports the invoice open.
    let payload = format!(
        "{{\"event_id\":\"evt-2\",\"event_type\":\"payment.confirmed\",\"invoice_id\":\"{invoice_id}\"}}"
    );
    let (s, _) = app.webhook(Some(sign_webhook(&payload)), &payload);
    assert_eq!(s, 200);
    assert_eq!(app.grant(&pk, "write").unwrap().status, "pending");
}

#[test]
fn webhook_edge_cases() {
    let mut app = paid_test_app(PayMode::Write);
    // Signed, but about nothing that is tracked: acknowledged.
    for payload in ["{}", "{\"invoice_id\":\"inv-99\"}", "{\"invoice_id\":7}", "[1]"] {
        let (s, j) = app.webhook(Some(format!(" {} ", sign_webhook(payload))), payload);
        assert_eq!((s, j["ok"] == true), (200, true));
    }
    let (s, j) = app.webhook(Some(sign_webhook("no json")), "no json");
    assert_eq!((s, j["error"] == "invalid body"), (400, true));
    // Without a secret the endpoint does not exist.
    app.cfg.goblinpay_webhook_secret = None;
    let (s, j) = app.webhook(Some(sign_webhook("{}")), "{}");
    assert_eq!((s, j["error"] == "not found"), (404, true));
}

#[test]
fn replayed_webhook_is_only_acknowledged() {
    let grant = Grant {
        pubkey: "k".into(),
        resource: "write".into(),
        invoice_id: "inv-1".into(),
        pay_url: "u".into(),
        amount_nanogrin: 1,
        status: "paid".into(),
    };
    let mut seen = Seen::new();
    seen.invoice_grant = Some(Some(grant));
    match webhook_verified(b"{\"invoice_id\":\"inv-1\"}", true, &seen) {
        Step::Reply(r) => assert!(matches!(r.body, Body::Acknowledged)),
        Step::Ask(_) => panic!("nothing is left to ask"),
    }
}

#[test]
fn quote_checks_come_in_order() {
    let mut app = paid_test_app(PayMode::Write);
    let keys = Keys::generate();
    let body = "{\"resource\":\"write\"}";
    let good = nip98_header(&keys, "POST", "/api/v1/quote", body.as_bytes(), 0);

    // Unsigned, and signed in ways that do not count.
    let refused = |app: &mut App, header: Option<String>, body: &str| {
        let (s, j) = app.quote_as(header, body, "10.0.9.1");
        (s, j["error"].as_str().unwrap().to_string())
    };
    assert_eq!(refused(&mut app, None, body), (401, "missing authorization".into()));
    assert_eq!(
        refused(&mut app, Some("Bearer x".into()), body),
        (401, "authorization is not Nostr".into())
    );
    assert_eq!(
        refused(&mut app, Some("Nostr ***".into()), body),
        (401, "authorization is not base64".into())
    );
    assert_eq!(
        refused(&mut app, Some("Nostr e30=".into()), body),
        (401, "authorization is no event".into())
    );
    let stale = nip98_header(&keys, "POST", "/api/v1/quote", body.as_bytes(), 120);
    assert_eq!(
        refused(&mut app, Some(stale), body),
        (401, "auth event expired or post-dated".into())
    );
    let ahead = nip98_header(&keys, "POST", "/api/v1/quote", body.as_bytes(), -120);
    assert_eq!(
        refused(&mut app, Some(ahead), body),
        (401, "auth event expired or post-dated".into())
    );
    let elsewhere = nip98_header(&keys, "POST", "/api/v1/profile/alice", body.as_bytes(), 0);
    assert_eq!(
        refused(&mut app, Some(elsewhere), body),
        (401, "auth event url mismatch".into())
    );
    let delete = nip98_header(&keys, "DELETE", "/api/v1/quote", body.as_bytes(), 0);
    assert_eq!(
        refused(&mut app, Some(delete), body),
        (401, "auth event method mismatch".into())
    );
    assert_eq!(
        refused(&mut app, Some(good.clone()), "{\"resource\":\"name\"}"),
        (401, "auth event payload mismatch".into())
    );
    // A broken signature, behind a well-formed event.
    let event = EventBuilder::new(Kind::HttpAuth, "").sign_with_keys(&keys).unwrap();
    let mut value: Value = serde_json::from_str(&event.as_json()).unwrap();
    value["sig"] = Value::String("00".repeat(64));
    let forged = base64::engine::general_purpose::STANDARD.encode(value.to_string());
    assert_eq!(
        refused(&mut app, Some(format!("Nostr {forged}")), body),
        (401, "bad auth event signature".into())
    );
    let note = EventBuilder::new(Kind::TextNote, "").sign_with_keys(&keys).unwrap();
    let note = base64::engine::general_purpose::STANDARD.encode(note.as_json());
    assert_eq!(
        refused(&mut app, Some(format!("Nostr {note}")), body),
        (401, "wrong auth event kind".into())
    );

    // The genuine one counts once.
    let (s, _) = app.quote_as(Some(good.clone()), body, "10.0.9.1");
    assert_eq!(s, 402);
    assert_eq!(refused(&mut app, Some(good), body), (401, "auth event replayed".into()));

    // A body that is none.
    let auth = nip98_header(&keys, "POST", "/api/v1/quote", b"{}", 0);
    assert_eq!(refused(&mut app, Some(auth), "{}"), (400, "invalid body".into()));

    // The backend down: never taken for a payment.
    let other = Keys::generate();
    app.mock().set_fail(true);
    let (s, j) = app.quote(&other, "write", "10.0.9.2");
    assert_eq!(s, 503);
    assert_eq!(j["error"], "payment backend unavailable, try again");

    // The limit comes before everything.
    app.cfg.write_rate_max = 1;
    let (s, _) = app.quote_as(None, body, "10.0.9.3");
    assert_eq!(s, 401);
    let (s, j) = app.quote_as(None, body, "10.0.9.3");
    assert_eq!((s, j["error"] == "rate_limited"), (429, true));
}

#[test]
fn signed_requests_name_their_key() {
    let keys = Keys::generate();
    let header = nip98_header(&keys, "POST", "/api/v1/quote", b"x", 0);
    let request = AuthRequest {
        authorization: Some(&header),
        method: "POST",
        path: "/api/v1/quote",
        body: b"x",
    };
    let (key, id) = verify_nip98(&request, BASE_URL, 60, unix_now()).unwrap();
    assert_eq!(key, keys.public_key().to_hex());
    assert_eq!(id.len(), 64);
}

#[test]
fn event_checks_on_given_values() {
    let event = NostrEvent {
        id: "i".into(),
        pubkey: "k".into(),
        created_at: 1000,
        kind: 27235,
        tags: vec![
            vec!["u".into()],
            vec!["u".into(), "https://a/b".into()],
            vec!["method".into(), "GET".into()],
        ],
        json: "{}".into(),
    };
    let check = |body: &[u8], now: i64| check_event(&event, "GET", "https://a/b", body, 60, now);
    assert_eq!(check(b"", 1000), None);
    assert_eq!(check(b"", 1060), None);
    assert_eq!(check(b"", 940), None);
    assert!(check(b"", 1061).is_some());
    assert!(check(b"", 939).is_some());
    assert_eq!(check(b"x", 1000).as_deref(), Some("auth event payload mismatch"));
}

#[test]
fn minted_tags_authenticate() {
    let tags = request_tags("POST", "https://a/b", b"abc");
    assert_eq!(
        tags,
        vec![
            vec!["u".to_string(), "https://a/b".to_string()],
            vec!["method".to_string(), "POST".to_string()],
            vec![
                "payload".to_string(),
                "ba7816bf8f01cfea414140de5dae2223b00361a396177a9cb410ff61f20015ad".to_string()
            ],
        ]
    );
    assert_eq!(request_tags("GET", "u", b"").len(), 2);
    let event = NostrEvent {
        id: "i".into(),
        pubkey: "k".into(),
        created_at: 1000,
        kind: 27235,
        tags,
        json: "{}".into(),
    };
    assert_eq!(check_event(&event, "POST", "https://a/b", b"abc", 60, 1030), None);
    assert!(check_event(&event, "POST", "https://a/b", b"abd", 60, 1030).is_some());
    assert!(check_event(&event, "PUT", "https://a/b", b"abc", 60, 1030).is_some());
    assert!(check_event(&event, "POST", "https://a/c", b"abc", 60, 1030).is_some());
}

/// A stored event stands in the answer as it is; what is no JSON stands as null.
#[test]
fn stored_events_stand_as_documents() {
    let shown = |event: &str| {
        let body: Body<String> =
            Body::Offer { event_json: event.to_string(), status: "live".to_string() };
        match body.members().remove(0) {
            (key, Field::Document(s)) => {
                assert_eq!(key, "offer");
                s
            }
            _ => panic!("expected a document"),
        }
    };
    assert_eq!(shown("{ \"id\": \"é\" }"), "{ \"id\": \"é\" }");
    assert_eq!(shown("null"), "null");
    assert_eq!(shown("{\"id\":"), "null");
    assert_eq!(shown(""), "null");
}
