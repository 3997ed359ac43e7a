//! Paid resources, against a backend in memory and the real tables.

use floonet_name_authority::config::{Config, PayMode};
use floonet_name_authority::db;
use floonet_name_authority::paid::testing::MockPay;
use floonet_name_authority::paid::{
    ensure_paid, parse_invoice, parse_status, GoblinPay, Grant, PaidAsk, PaidOutcome, PaidSeen,
    PaidStep, PayBackend, Paywall,
};
use floonet_name_authority::ratelimit::Limits;
use rusqlite::Connection;
use serde_json::Value;

struct App {
    cfg: Config,
    db: Connection,
    limits: Limits,
    wall: Option<Paywall<MockPay>>,
    clock: u64,
}

impl App {
    fn open(cfg: Config, wall: Option<Paywall<MockPay>>) -> App {
        let db = Connection::open_in_memory().unwrap();
        db.execute_batch(db::SCHEMA).unwrap();
        App { cfg, db, limits: Limits::new(), wall, clock: 1_000_000 }
    }

    fn mock(&mut self) -> &mut MockPay {
        &mut self.wall.as_mut().unwrap().backend
    }

    fn grant(&self, pubkey: &str, resource: &str) -> Option<Grant> {
        self.db
            .query_row(db::GRANT, (pubkey, resource), |r| {
                Ok(Grant {
                    pubkey: r.get(0)?,
                    resource: r.get(1)?,
                    invoice_id: r.get(2)?,
                    pay_url: r.get(3)?,
                    amount_nanogrin: r.get::<_, i64>(4)? as u64,
                    status: r.get(5)?,
                })
            })
            .ok()
    }

    fn mark_grant_paid(&self, invoice_id: &str) {
        self.db.execute(db::MARK_GRANT_PAID, (invoice_id, 1i64)).unwrap();
    }

    fn ensure(&mut self, pubkey: &str, resource: &str) -> PaidOutcome<String> {
        self.clock += 1;
        let mut seen = PaidSeen::new();
        loop {
            let step = ensure_paid(&self.cfg, self.wall.as_ref(), pubkey, resource, &seen);
            match step {
                PaidStep::Done(o) => return o,
                PaidStep::Ask(PaidAsk::Grant { pubkey, resource }) => {
                    seen.grant = Some(self.grant(&pubkey, &resource));
                }
                PaidStep::Ask(PaidAsk::Cooling { bucket, key, window }) => {
                    let key = format!("{bucket}:{key}");
                    seen.cooling =
                        Some(self.limits.cooldown_active(&key, self.clock, window * 1000));
                }
                PaidStep::Ask(PaidAsk::RecordOp { bucket, key }) => {
                    self.limits.record_op(&format!("{bucket}:{key}"), self.clock);
                    seen.recorded = true;
                }
                PaidStep::Ask(PaidAsk::InvoiceStatus { invoice_id }) => {
                    seen.status = Some(self.mock().invoice_status(&invoice_id));
                }
                PaidStep::Ask(PaidAsk::MarkPaid { invoice_id }) => {
                    self.mark_grant_paid(&invoice_id);
                    seen.marked = true;
                }
                PaidStep::Ask(PaidAsk::CreateInvoice { order_ref, amount, memo }) => {
                    seen.created = Some(self.mock().create_invoice(&order_ref, amount, &memo));
                }
                PaidStep::Ask(PaidAsk::StoreGrant {
                    pubkey,
                    resource,
                    invoice_id,
                    pay_url,
                    amount,
                }) => {
                    self.db
                        .execute(
                            db::PUT_PENDING_GRANT,
                            (pubkey, resource, invoice_id, pay_url, amount as i64, 1i64),
                        )
                        .unwrap();
                    seen.stored = true;
                }
            }
        }
    }
}

/// An app in paid (name) mode with its mock backend.
fn paid_app() -> App {
    let mut cfg = Config::for_test();
    cfg.pay_mode = PayMode::Name;
    App::open(
        cfg,
        Some(Paywall {
            backend: MockPay::new(),
            name_price_nanogrin: 1_500_000_000,
            write_price_nanogrin: 500_000_000,
        }),
    )
}

#[test]
fn free_mode_is_always_paid() {
    let mut app = App::open(Config::for_test(), None);
    assert!(matches!(app.ensure(&"a".repeat(64), "name"), PaidOutcome::Paid));
}

#[test]
fn unpaid_gets_invoice_then_paid_after_settlement() {
    let mut app = paid_app();
    let pk = "a".repeat(64);

    // First ask: an invoice is created and payment is due.
    let due = app.ensure(&pk, "name");
    let PaidOutcome::Due { invoice_id, pay_url, price_nanogrin } = due else {
        panic!("expected Due, got {due:?}");
    };
    assert_eq!(price_nanogrin, 1_500_000_000);
    assert!(pay_url.contains(&invoice_id));

    // Second ask: same invoice (idempotent), still due.
    let again = app.ensure(&pk, "name");
    let PaidOutcome::Due { invoice_id: id2, .. } = again else {
        panic!("expected Due");
    };
    assert_eq!(id2, invoice_id);

    // Settle at the backend; the next ask promotes the grant.
    app.mock().set_status(&invoice_id, "paid");
    assert!(matches!(app.ensure(&pk, "name"), PaidOutcome::Paid));
    // And it stays paid without further polling.
    app.mock().set_fail(true);
    assert!(matches!(app.ensure(&pk, "name"), PaidOutcome::Paid));
}

#[test]
fn expired_invoice_rolls_a_fresh_one() {
    let mut app = paid_app();
    let pk = "b".repeat(64);
    let PaidOutcome::Due { invoice_id, .. } = app.ensure(&pk, "name") else {
        panic!("expected Due");
    };
    app.mock().set_status(&invoice_id, "expired");
    let PaidOutcome::Due { invoice_id: id2, .. } = app.ensure(&pk, "name") else {
        panic!("expected Due");
    };
    assert_ne!(id2, invoice_id, "a fresh invoice replaces the expired one");
}

#[test]
fn backend_down_fails_closed() {
    let mut app = paid_app();
    app.mock().set_fail(true);
    let out = app.ensure(&"c".repeat(64), "name");
    assert!(matches!(out, PaidOutcome::Unavailable(_)));
}

#[test]
fn failed_poll_keeps_the_payment_due() {
    let mut app = paid_app();
    let pk = "c".repeat(64);
    let PaidOutcome::Due { invoice_id, .. } = app.ensure(&pk, "name") else {
        panic!("expected Due");
    };
    app.mock().set_fail(true);
    let PaidOutcome::Due { invoice_id: id2, .. } = app.ensure(&pk, "name") else {
        panic!("expected Due");
    };
    assert_eq!(id2, invoice_id);
}

#[test]
fn polls_wait_for_the_interval() {
    let mut app = paid_app();
    app.cfg.paid_poll_interval = 5;
    let pk = "f".repeat(64);
    let PaidOutcome::Due { invoice_id, .. } = app.ensure(&pk, "name") else {
        panic!("expected Due");
    };
    // The first poll sees an open invoice; the next comes too early to see more.
    assert!(matches!(app.ensure(&pk, "name"), PaidOutcome::Due { .. }));
    app.mock().set_status(&invoice_id, "paid");
    assert!(matches!(app.ensure(&pk, "name"), PaidOutcome::Due { .. }));
    app.clock += 5000;
    assert!(matches!(app.ensure(&pk, "name"), PaidOutcome::Paid));
}

#[test]
fn consume_grant_requires_repayment() {
    let mut app = paid_app();
    let pk = "d".repeat(64);
    let PaidOutcome::Due { invoice_id, .. } = app.ensure(&pk, "name") else {
        panic!("expected Due");
    };
    app.mark_grant_paid(&invoice_id);
    assert!(matches!(app.ensure(&pk, "name"), PaidOutcome::Paid));
    app.db.execute(db::CONSUME_GRANT, (&pk, "name")).unwrap();
    assert!(matches!(app.ensure(&pk, "name"), PaidOutcome::Due { .. }));
}

#[test]
fn resources_are_independent() {
    let mut app = paid_app();
    let pk = "e".repeat(64);
    let PaidOutcome::Due { invoice_id, .. } = app.ensure(&pk, "name") else {
        panic!("expected Due");
    };
    app.mark_grant_paid(&invoice_id);
    assert!(matches!(app.ensure(&pk, "name"), PaidOutcome::Paid));
    // Paying for a name does not grant write access.
    assert!(matches!(app.ensure(&pk, "write"), PaidOutcome::Due { .. }));
}

#[test]
fn invoices_say_what_they_are_for() {
    let mut cfg = Config::for_test();
    cfg.pay_mode = PayMode::Write;
    let wall = Paywall { backend: (), name_price_nanogrin: 1, write_price_nanogrin: 2 };
    let mut seen = PaidSeen::new();
    seen.grant = Some(None);
    match ensure_paid(&cfg, Some(&wall), "KEY", "write", &seen) {
        PaidStep::Ask(PaidAsk::CreateInvoice { order_ref, amount, memo }) => {
            assert_eq!(order_ref, "floonet-write:KEY");
            assert_eq!(amount, 2);
            assert_eq!(memo, "Floonet write (floonet.example)");
        }
        _ => panic!("expected an invoice"),
    }
    assert_eq!(wall.price_nanogrin("name"), 1);
    assert_eq!(wall.price_nanogrin("blobs"), 0);
}

#[test]
fn paywall_comes_from_the_configuration() {
    let mut cfg = Config::for_test();
    assert!(Paywall::from_config(&cfg).is_none());
    cfg.pay_mode = PayMode::Name;
    cfg.goblinpay_url = "https://pay.example".into();
    cfg.goblinpay_token = "tok".into();
    cfg.name_price_nanogrin = 7;
    let wall = Paywall::from_config(&cfg).unwrap();
    assert_eq!(wall.backend.url, "https://pay.example");
    assert_eq!(wall.backend.authorization(), "Bearer tok");
    assert_eq!(wall.name_price_nanogrin, 7);
}

#[test]
fn goblinpay_requests_and_answers() {
    let server = GoblinPay::new("https://pay.example".into(), "tok".into());
    assert_eq!(server.invoices_url(), "https://pay.example/invoice");
    assert_eq!(server.invoice_url("inv-1"), "https://pay.example/invoice/inv-1");
    let body: Value = serde_json::from_str(
        "{\"invoice_id\":\"inv-1\",\"pay_url\":\"https://p/1\",\"status\":\"open\"}",
    )
    .unwrap();
    let invoice = parse_invoice(&body).unwrap();
    assert_eq!(
        (invoice.id.as_str(), invoice.pay_url.as_str(), invoice.status.as_str()),
        ("inv-1", "https://p/1", "open")
    );
    assert_eq!(parse_status(&body), Ok("open".to_string()));
    let empty: Value = serde_json::from_str("{\"invoice_id\":1}").unwrap();
    assert_eq!(
        parse_invoice(&empty).unwrap_err(),
        "goblinpay invoice missing `invoice_id`"
    );
    let partial: Value = serde_json::from_str("{\"invoice_id\":\"a\"}").unwrap();
    assert_eq!(parse_invoice(&partial).unwrap_err(), "goblinpay invoice missing `pay_url`");
    let partial: Value =
        serde_json::from_str("{\"invoice_id\":\"a\",\"pay_url\":\"b\"}").unwrap();
    assert_eq!(parse_invoice(&partial).unwrap_err(), "goblinpay invoice missing `status`");
    assert_eq!(parse_status(&empty).unwrap_err(), "goblinpay invoice status missing");
}
