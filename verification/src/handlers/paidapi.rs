//! The paid-resource endpoints.
//!
//!   GET  /api/v1/paid/{pubkey}       whether a key has paid for writing
//!   POST /api/v1/quote               what a resource costs the signing key
//!   POST /api/v1/goblinpay/webhook   GoblinPay's notification of a payment

use crate::config::{Config, ConfigView, PayMode};
use crate::crypto;
use crate::crypto::{hex_encode, hmac_sha256};
use crate::handlers::entry;
use crate::handlers::entry::{pass_signed, Entry, EntryAsk, EntrySeen, Request};
use crate::handlers::reply;
use crate::handlers::reply::{refuse, Body, Reply};
use crate::json;
use crate::json::get_text;
use crate::names;
use crate::names::valid_pubkey_hex;
use crate::paid;
use crate::paid::{ensure_paid, Grant, PaidAsk, PaidOutcome, PaidSeen, PaidStep, Paywall};
use crate::text;
use crate::text::{same, to_lower, trim};
use crate::util;
use crate::util::{client_ip, ct_eq};
use vstd::prelude::*;
use vstd::string::*;
use vstd::utf8::*;

verus! {

/// What a handler asks for.
pub enum Ask<S> {
    Entry(EntryAsk<S>),
    /// The grant of this key for this resource.
    Grant { pubkey: S, resource: S },
    Paid(PaidAsk<S>),
    /// The grant of this invoice.
    GrantByInvoice { invoice_id: S },
    /// The status of an invoice, from the backend.
    InvoiceStatus { invoice_id: S },
    /// Make the grant of this invoice `paid`.
    MarkPaid { invoice_id: S },
}

/// Where a handler stands.
pub enum Step<S> {
    Ask(Ask<S>),
    Reply(Reply<S>),
}

/// What has been learned and done for a request. Each field answers one kind
/// of [`Ask`].
pub struct Seen {
    pub entry: EntrySeen,
    pub grant: Option<Option<Grant>>,
    pub paid: PaidSeen,
    pub invoice_grant: Option<Option<Grant>>,
    /// The status of the invoice, where the backend named it.
    pub status: Option<Option<String>>,
    pub marked: bool,
}

/// Nothing learned yet.
pub open spec fn nothing() -> Seen {
    Seen {
        entry: entry::nothing(),
        grant: None,
        paid: paid::nothing(),
        invoice_grant: None,
        status: None,
        marked: false,
    }
}

impl Seen {
    /// Nothing yet.
    pub fn new() -> (seen: Seen)
        ensures
            seen == nothing(),
    {
        Seen {
            entry: EntrySeen::new(),
            grant: None,
            paid: PaidSeen::new(),
            invoice_grant: None,
            status: None,
            marked: false,
        }
    }
}

/// What a handler asks for, over character sequences.
pub open spec fn ask_view(a: Ask<String>) -> Ask<Seq<char>> {
    match a {
        Ask::Entry(g) => Ask::Entry(entry::entry_ask_view(g)),
        Ask::Grant { pubkey, resource } => Ask::Grant { pubkey: pubkey@, resource: resource@ },
        Ask::Paid(p) => Ask::Paid(paid::paid_ask_view(p)),
        Ask::GrantByInvoice { invoice_id } => Ask::GrantByInvoice { invoice_id: invoice_id@ },
        Ask::InvoiceStatus { invoice_id } => Ask::InvoiceStatus { invoice_id: invoice_id@ },
        Ask::MarkPaid { invoice_id } => Ask::MarkPaid { invoice_id: invoice_id@ },
    }
}

/// Where a handler stands, over character sequences.
pub open spec fn step_view(s: Step<String>) -> Step<Seq<char>> {
    match s {
        Step::Ask(a) => Step::Ask(ask_view(a)),
        Step::Reply(r) => Step::Reply(r@),
    }
}

/// A refusal as a handler's answer.
pub open spec fn refused(status: u16, why: Seq<char>) -> Step<Seq<char>> {
    Step::Reply(reply::refusal(status, why))
}

fn refuse_step(status: u16, why: &str) -> (s: Step<String>)
    ensures
        step_view(s) == refused(status, why@),
{
    Step::Reply(refuse(status, why))
}

// ---------------------------------------------------------------------------
// Write grants
// ---------------------------------------------------------------------------

/// The answer to whether a key has paid.
pub open spec fn says_paid(pubkey: Seq<char>, paid: bool) -> Step<Seq<char>> {
    Step::Reply(Reply { status: 200, body: Body::Paid { pubkey, paid } })
}

/// What a request for a key's write grant is answered. Where writing is not
/// sold, everybody has paid. No grant means not paid, and none is made: an
/// invoice is only ever created for a signed request.
pub open spec fn status_step(
    cfg: ConfigView,
    prices: Option<(u64, u64)>,
    pubkey: Seq<char>,
    req: Request,
    seen: Seen,
) -> Step<Seq<char>> {
    let key = text::lower(pubkey);
    match seen.entry.allowed {
        None => Step::Ask(Ask::Entry(EntryAsk::AllowRead { ip: util::ip_of(req.real_ip) })),
        Some(false) => refused(429, "rate_limited"@),
        Some(true) => if !names::is_pubkey_hex(key) {
            refused(404, "not found"@)
        } else if cfg.pay_mode != PayMode::Write {
            says_paid(key, true)
        } else {
            match seen.grant {
                None => Step::Ask(Ask::Grant { pubkey: key, resource: "write"@ }),
                Some(None) => says_paid(key, false),
                Some(Some(grant)) => if grant.status@ == "paid"@ {
                    says_paid(key, true)
                } else {
                    match paid::ensure(cfg, prices, key, "write"@, seen.paid) {
                        PaidStep::Ask(a) => Step::Ask(Ask::Paid(a)),
                        PaidStep::Done(o) => says_paid(key, o is Paid),
                    }
                },
            }
        },
    }
}

fn say_paid(pubkey: String, paid: bool) -> (s: Step<String>)
    ensures
        step_view(s) == says_paid(pubkey@, paid),
{
    Step::Reply(Reply { status: 200, body: Body::Paid { pubkey, paid } })
}

/// GET /api/v1/paid/{pubkey}: does this key hold a confirmed write grant?
pub fn paid_status<B>(
    cfg: &Config,
    wall: Option<&Paywall<B>>,
    pubkey: &str,
    req: &Request,
    seen: &Seen,
) -> (step: Step<String>)
    ensures
        step_view(step) == status_step(cfg@, paid::prices(wall), pubkey@, *req, *seen),
{
    match seen.entry.allowed {
        None => {
            return Step::Ask(Ask::Entry(EntryAsk::AllowRead { ip: client_ip(&req.real_ip) }));
        },
        Some(allowed) => {
            if !allowed {
                return refuse_step(429, "rate_limited");
            }
        },
    }
    let key = to_lower(pubkey);
    if !valid_pubkey_hex(key.as_str()) {
        return refuse_step(404, "not found");
    }
    if cfg.pay_mode != PayMode::Write {
        return say_paid(key, true);
    }
    let grant = match &seen.grant {
        None => {
            return Step::Ask(Ask::Grant { pubkey: key, resource: "write".to_owned() });
        },
        Some(None) => {
            return say_paid(key, false);
        },
        Some(Some(g)) => g,
    };
    if same(grant.status.as_str(), "paid") {
        return say_paid(key, true);
    }
    match ensure_paid(cfg, wall, key.as_str(), "write", &seen.paid) {
        PaidStep::Ask(a) => Step::Ask(Ask::Paid(a)),
        PaidStep::Done(PaidOutcome::Paid) => say_paid(key, true),
        PaidStep::Done(_) => say_paid(key, false),
    }
}

// ---------------------------------------------------------------------------
// Quotes
// ---------------------------------------------------------------------------

/// Whether this authority sells the resource.
pub open spec fn sells(mode: PayMode, resource: Seq<char>) -> bool {
    ||| mode == PayMode::Name && resource == "name"@
    ||| mode == PayMode::Write && resource == "write"@
}

/// What a key is answered that asks for the price of a resource.
pub open spec fn quote_outcome(
    resource: Seq<char>,
    key: Seq<char>,
    outcome: PaidOutcome<Seq<char>>,
) -> Reply<Seq<char>> {
    match outcome {
        PaidOutcome::Paid => Reply { status: 200, body: Body::Granted { resource, pubkey: key } },
        PaidOutcome::Due { invoice_id, pay_url, price_nanogrin } => Reply {
            status: 402,
            body: Body::PaymentRequired { resource, invoice_id, pay_url, price_nanogrin },
        },
        PaidOutcome::Unavailable(_) => reply::refusal(
            503,
            "payment backend unavailable, try again"@,
        ),
    }
}

/// What a request for a quote is answered. `resource` is what its body names,
/// where it is one.
pub open spec fn quote_step(
    cfg: ConfigView,
    prices: Option<(u64, u64)>,
    req: Request,
    resource: Option<Seq<char>>,
    seen: Seen,
) -> Step<Seq<char>> {
    match entry::signed_entry(cfg, "quote"@, "POST"@, "/api/v1/quote"@, req, req.body@, seen.entry) {
        Entry::Ask(a) => Step::Ask(Ask::Entry(a)),
        Entry::Refuse(r) => Step::Reply(r),
        Entry::Pass(key) => match resource {
            None => refused(400, "invalid body"@),
            Some(resource) => if !sells(cfg.pay_mode, resource) {
                refused(400, "resource not for sale on this authority"@)
            } else {
                match paid::ensure(cfg, prices, key, resource, seen.paid) {
                    PaidStep::Ask(a) => Step::Ask(Ask::Paid(a)),
                    PaidStep::Done(o) => Step::Reply(quote_outcome(resource, key, o)),
                }
            },
        },
    }
}

/// Answer a key that asks for the price of a resource, once the outcome of the
/// payment check is there.
pub fn answer_quote(resource: &str, key: &str, outcome: PaidOutcome<String>) -> (r: Reply<String>)
    ensures
        r@ == quote_outcome(resource@, key@, paid::outcome_view(outcome)),
{
    match outcome {
        PaidOutcome::Paid => Reply {
            status: 200,
            body: Body::Granted { resource: resource.to_owned(), pubkey: key.to_owned() },
        },
        PaidOutcome::Due { invoice_id, pay_url, price_nanogrin } => Reply {
            status: 402,
            body: Body::PaymentRequired {
                resource: resource.to_owned(),
                invoice_id,
                pay_url,
                price_nanogrin,
            },
        },
        PaidOutcome::Unavailable(_) => refuse(503, "payment backend unavailable, try again"),
    }
}

/// POST /api/v1/quote: quote a resource for the signing key. The invoice is
/// created, or used again, and payment is due until it is confirmed.
pub fn quote<B>(
    cfg: &Config,
    wall: Option<&Paywall<B>>,
    req: &Request,
    resource: &Option<String>,
    seen: &Seen,
) -> (step: Step<String>)
    ensures
        step_view(step) == quote_step(
            cfg@,
            paid::prices(wall),
            *req,
            text::opt_view(*resource),
            *seen,
        ),
{
    let key = match pass_signed(
        cfg,
        "quote",
        "POST",
        "/api/v1/quote",
        req,
        req.body.as_slice(),
        &seen.entry,
    ) {
        Entry::Ask(a) => {
            return Step::Ask(Ask::Entry(a));
        },
        Entry::Refuse(r) => {
            return Step::Reply(r);
        },
        Entry::Pass(key) => key,
    };
    let resource = match resource {
        Some(r) => r,
        None => {
            return refuse_step(400, "invalid body");
        },
    };
    let sold = match cfg.pay_mode {
        PayMode::Name => same(resource.as_str(), "name"),
        PayMode::Write => same(resource.as_str(), "write"),
        PayMode::Off => false,
    };
    if !sold {
        return refuse_step(400, "resource not for sale on this authority");
    }
    match ensure_paid(cfg, wall, key.as_str(), resource.as_str(), &seen.paid) {
        PaidStep::Ask(a) => Step::Ask(Ask::Paid(a)),
        PaidStep::Done(o) => Step::Reply(answer_quote(resource.as_str(), key.as_str(), o)),
    }
}

// ---------------------------------------------------------------------------
// The webhook
// ---------------------------------------------------------------------------

/// The signature that GoblinPay sends with a notification.
pub open spec fn webhook_signature(secret: Seq<char>, body: Seq<u8>) -> Seq<char> {
    "sha256="@ + crypto::hex_text(crypto::hmac_of(encode_utf8(secret), body))
}

/// The answer that takes a notification.
pub open spec fn acknowledged() -> Step<Seq<char>> {
    Step::Reply(Reply { status: 200, body: Body::Acknowledged })
}

/// What a notification is answered whose signature holds. It is only a nudge:
/// the grant of the invoice that it names is promoted where the backend itself
/// says `paid`.
pub open spec fn webhook_signed(body: Seq<u8>, selling: bool, seen: Seen) -> Step<Seq<char>> {
    match json::document(body) {
        None => refused(400, "invalid body"@),
        Some(nodes) => match json::text_member(nodes, "invoice_id"@) {
            None => acknowledged(),
            Some(invoice_id) => match seen.invoice_grant {
                None => Step::Ask(Ask::GrantByInvoice { invoice_id }),
                Some(None) => acknowledged(),
                Some(Some(grant)) => if grant.status@ == "paid"@ || !selling {
                    acknowledged()
                } else {
                    match seen.status {
                        None => Step::Ask(Ask::InvoiceStatus { invoice_id }),
                        Some(status) => if text::opt_view(status) == Some("paid"@)
                            && !seen.marked {
                            Step::Ask(Ask::MarkPaid { invoice_id })
                        } else {
                            acknowledged()
                        },
                    }
                },
            },
        },
    }
}

/// What a notification is answered: nothing is served without a secret, and
/// nothing is read without the signature.
pub open spec fn webhook_step(
    cfg: ConfigView,
    selling: bool,
    signature: Option<Seq<char>>,
    body: Seq<u8>,
    seen: Seen,
) -> Step<Seq<char>> {
    match cfg.goblinpay_webhook_secret {
        None => refused(404, "not found"@),
        Some(secret) => {
            let provided = match signature {
                Some(s) => text::trimmed(s),
                None => text::trimmed(""@),
            };
            if provided != webhook_signature(secret, body) {
                refused(401, "bad signature"@)
            } else {
                webhook_signed(body, selling, seen)
            }
        },
    }
}

fn acknowledge() -> (s: Step<String>)
    ensures
        step_view(s) == acknowledged(),
{
    Step::Reply(Reply { status: 200, body: Body::Acknowledged })
}

/// Equal bytes are the bytes of equal texts.
proof fn utf8_binds(a: Seq<char>, b: Seq<char>)
    requires
        encode_utf8(a) == encode_utf8(b),
    ensures
        a == b,
{
    encode_utf8_decode_utf8(a);
    encode_utf8_decode_utf8(b);
}

/// Answer a notification whose signature holds.
pub fn webhook_verified(body: &[u8], selling: bool, seen: &Seen) -> (step: Step<String>)
    ensures
        step_view(step) == webhook_signed(body@, selling, *seen),
{
    let payload = match json::read(body) {
        Some(v) => v,
        None => {
            return refuse_step(400, "invalid body");
        },
    };
    let invoice_id = match get_text(&payload, "invoice_id") {
        Some(s) => s,
        None => {
            return acknowledge();
        },
    };
    let grant = match &seen.invoice_grant {
        None => {
            return Step::Ask(Ask::GrantByInvoice { invoice_id });
        },
        Some(None) => {
            return acknowledge();
        },
        Some(Some(g)) => g,
    };
    if same(grant.status.as_str(), "paid") || !selling {
        return acknowledge();
    }
    match &seen.status {
        None => Step::Ask(Ask::InvoiceStatus { invoice_id }),
        Some(status) => {
            let confirmed = match status {
                Some(s) => same(s.as_str(), "paid"),
                None => false,
            };
            if confirmed && !seen.marked {
                Step::Ask(Ask::MarkPaid { invoice_id })
            } else {
                acknowledge()
            }
        },
    }
}

/// POST /api/v1/goblinpay/webhook: GoblinPay's notification of a payment, with
/// the HMAC-SHA256 of the raw body as its signature.
pub fn goblinpay_webhook(
    cfg: &Config,
    selling: bool,
    signature: &Option<String>,
    body: &[u8],
    seen: &Seen,
) -> (step: Step<String>)
    ensures
        step_view(step) == webhook_step(cfg@, selling, text::opt_view(*signature), body@, *seen),
{
    let secret = match &cfg.goblinpay_webhook_secret {
        Some(s) => s,
        None => {
            return refuse_step(404, "not found");
        },
    };
    let provided = match signature {
        Some(s) => trim(s.as_str()),
        None => trim(""),
    };
    let code = hmac_sha256(secret.as_str().as_bytes(), body);
    let digits = hex_encode(code.as_slice());
    let mut expected = "sha256=".to_owned();
    expected.append(digits.as_str());
    proof {
        if encode_utf8(provided@) == encode_utf8(expected@) {
            utf8_binds(provided@, expected@);
        }
    }
    if !ct_eq(provided.as_bytes(), expected.as_str().as_bytes()) {
        return refuse_step(401, "bad signature");
    }
    webhook_verified(body, selling, seen)
}

// ---------------------------------------------------------------------------
// Laws
// ---------------------------------------------------------------------------

/// Whether what is asked for is still unknown or undone.
pub open spec fn unknown(a: Ask<Seq<char>>, seen: Seen) -> bool {
    match a {
        Ask::Entry(g) => entry::entry_unknown(g, seen.entry),
        Ask::Grant { .. } => seen.grant is None,
        Ask::Paid(p) => paid::paid_unknown(p, seen.paid),
        Ask::GrantByInvoice { .. } => seen.invoice_grant is None,
        Ask::InvoiceStatus { .. } => seen.status is None,
        Ask::MarkPaid { .. } => !seen.marked,
    }
}

/// No handler asks for what it already knows, or has anything done twice.
pub proof fn nothing_is_asked_twice(
    cfg: ConfigView,
    prices: Option<(u64, u64)>,
    pubkey: Seq<char>,
    req: Request,
    resource: Option<Seq<char>>,
    selling: bool,
    signature: Option<Seq<char>>,
    body: Seq<u8>,
    seen: Seen,
)
    ensures
        status_step(cfg, prices, pubkey, req, seen) matches Step::Ask(a) ==> unknown(a, seen),
        quote_step(cfg, prices, req, resource, seen) matches Step::Ask(a) ==> unknown(a, seen),
        webhook_step(cfg, selling, signature, body, seen) matches Step::Ask(a) ==> unknown(a, seen),
{
}

/// A notification alone grants nothing: a grant is promoted only where the
/// signature holds and the backend itself says that the invoice is paid, and
/// it is the grant of the invoice that the notification names.
pub proof fn webhook_alone_grants_nothing(
    cfg: ConfigView,
    selling: bool,
    signature: Option<Seq<char>>,
    body: Seq<u8>,
    seen: Seen,
)
    ensures
        webhook_step(cfg, selling, signature, body, seen) matches Step::Ask(
            Ask::MarkPaid { invoice_id },
        ) ==> {
            &&& cfg.goblinpay_webhook_secret matches Some(secret)
            &&& signature matches Some(s) && text::trimmed(s) == webhook_signature(secret, body)
            &&& seen.status matches Some(Some(status)) && status@ == "paid"@
            &&& seen.invoice_grant matches Some(Some(grant)) && grant.status@ != "paid"@
            &&& json::document(body) matches Some(nodes) && json::text_member(
                nodes,
                "invoice_id"@,
            ) == Some(invoice_id)
        },
{
    reveal_strlit("");
    reveal_strlit("sha256=");
    if cfg.goblinpay_webhook_secret is Some {
        let expected = webhook_signature(cfg.goblinpay_webhook_secret->0, body);
        assert(expected.len() >= 7);
        assert(text::trimmed(""@).len() == 0);
    }
}

/// A replayed notification changes nothing: once the grant is paid it is only
/// acknowledged.
pub proof fn replayed_webhooks_change_nothing(body: Seq<u8>, selling: bool, seen: Seen)
    requires
        seen.invoice_grant matches Some(Some(grant)) && grant.status@ == "paid"@,
        json::document(body) is Some,
    ensures
        webhook_signed(body, selling, seen) == acknowledged(),
{
}

/// The public status never creates an invoice for a key without a grant, and
/// where writing is not sold it says `paid` of every key.
pub proof fn status_creates_nothing(
    cfg: ConfigView,
    prices: Option<(u64, u64)>,
    pubkey: Seq<char>,
    req: Request,
    seen: Seen,
)
    ensures
        seen.grant matches Some(None) ==> !(status_step(cfg, prices, pubkey, req, seen)
            matches Step::Ask(Ask::Paid(_))),
        cfg.pay_mode != PayMode::Write && seen.entry.allowed == Some(true) && names::is_pubkey_hex(
            text::lower(pubkey),
        ) ==> status_step(cfg, prices, pubkey, req, seen) == says_paid(text::lower(pubkey), true),
        cfg.pay_mode == PayMode::Write && prices is Some ==> {
            status_step(cfg, prices, pubkey, req, seen) == says_paid(text::lower(pubkey), true) ==> {
                ||| seen.grant matches Some(Some(grant)) && grant.status@ == "paid"@
                ||| seen.paid.grant matches Some(Some(grant)) && grant.status@ == "paid"@
                ||| seen.paid.status matches Some(Ok(status)) && status@ == "paid"@
            }
        },
{
}

/// Only what is sold is quoted, and an unreachable backend is never taken for
/// a payment.
pub proof fn quotes_fail_closed(
    cfg: ConfigView,
    prices: Option<(u64, u64)>,
    req: Request,
    resource: Option<Seq<char>>,
    seen: Seen,
)
    ensures
        quote_step(cfg, prices, req, resource, seen) matches Step::Ask(Ask::Paid(_)) ==> resource
            is Some && sells(cfg.pay_mode, resource->0),
        (quote_step(cfg, prices, req, resource, seen) matches Step::Reply(r) && r.status == 200)
            && prices is Some ==> {
            ||| seen.paid.grant matches Some(Some(grant)) && grant.status@ == "paid"@
            ||| seen.paid.status matches Some(Ok(status)) && status@ == "paid"@
        },
{
}

/// The status of a key: where the rate limit lets the question pass and the key
/// is one, it has paid where writing is not sold or its grant is `paid`; it has
/// not where it has no grant; and a pending grant is checked like any payment.
pub proof fn statuses_say_who_has_paid(
    cfg: ConfigView,
    prices: Option<(u64, u64)>,
    pubkey: Seq<char>,
    req: Request,
    seen: Seen,
)
    ensures
        ({
            let key = text::lower(pubkey);
            let step = status_step(cfg, prices, pubkey, req, seen);
            let paid = Step::Reply(Reply { status: 200, body: Body::Paid { pubkey: key, paid: true } });
            let not = Step::Reply(Reply { status: 200, body: Body::Paid { pubkey: key, paid: false } });
            &&& seen.entry.allowed is None ==> step == Step::Ask(
                Ask::Entry(
                    EntryAsk::AllowRead {
                        ip: match req.real_ip {
                            Some(ip) => ip@,
                            None => "unknown"@,
                        },
                    },
                ),
            )
            &&& seen.entry.allowed == Some(false) ==> step == Step::Reply(
                Reply { status: 429, body: Body::Error("rate_limited"@) },
            )
            &&& seen.entry.allowed == Some(true) && !names::is_pubkey_hex(key) ==> step
                == Step::Reply(Reply { status: 404, body: Body::Error("not found"@) })
            &&& seen.entry.allowed == Some(true) && names::is_pubkey_hex(key) ==> {
                &&& cfg.pay_mode == PayMode::Off || cfg.pay_mode == PayMode::Name ==> step == paid
                &&& cfg.pay_mode == PayMode::Write ==> match seen.grant {
                    None => step == Step::Ask(Ask::Grant { pubkey: key, resource: "write"@ }),
                    Some(None) => step == not,
                    Some(Some(grant)) => if grant.status@ == "paid"@ {
                        step == paid
                    } else {
                        match paid::ensure(cfg, prices, key, "write"@, seen.paid) {
                            PaidStep::Ask(a) => step == Step::Ask(Ask::Paid(a)),
                            PaidStep::Done(PaidOutcome::Paid) => step == paid,
                            PaidStep::Done(_) => step == not,
                        }
                    },
                }
            }
        }),
{
}

/// A quote is made for what is sold, to the key that signed the request: names
/// where names are sold, writing where writing is, and nothing where all is
/// free. It is answered with what the payment check says.
pub proof fn quotes_are_made_for_what_is_sold(
    cfg: ConfigView,
    prices: Option<(u64, u64)>,
    req: Request,
    resource: Option<Seq<char>>,
    seen: Seen,
    key: Seq<char>,
)
    requires
        entry::signed_entry(
            cfg,
            "quote"@,
            "POST"@,
            "/api/v1/quote"@,
            req,
            req.body@,
            seen.entry,
        ) == Entry::Pass(key),
    ensures
        match resource {
            None => quote_step(cfg, prices, req, resource, seen) == Step::Reply(
                Reply { status: 400, body: Body::Error("invalid body"@) },
            ),
            Some(r) => {
                let sold = (cfg.pay_mode == PayMode::Name && r == "name"@) || (cfg.pay_mode
                    == PayMode::Write && r == "write"@);
                let step = quote_step(cfg, prices, req, resource, seen);
                &&& !sold ==> step == Step::Reply(
                    Reply {
                        status: 400,
                        body: Body::Error("resource not for sale on this authority"@),
                    },
                )
                &&& sold ==> match paid::ensure(cfg, prices, key, r, seen.paid) {
                    PaidStep::Ask(a) => step == Step::Ask(Ask::Paid(a)),
                    PaidStep::Done(PaidOutcome::Paid) => step == Step::Reply(
                        Reply { status: 200, body: Body::Granted { resource: r, pubkey: key } },
                    ),
                    PaidStep::Done(PaidOutcome::Due { invoice_id, pay_url, price_nanogrin }) => step
                        == Step::Reply(
                        Reply {
                            status: 402,
                            body: Body::PaymentRequired {
                                resource: r,
                                invoice_id,
                                pay_url,
                                price_nanogrin,
                            },
                        },
                    ),
                    PaidStep::Done(PaidOutcome::Unavailable(_)) => step == Step::Reply(
                        Reply {
                            status: 503,
                            body: Body::Error("payment backend unavailable, try again"@),
                        },
                    ),
                }
            },
        },
{
}

/// A request for a quote that does not pass the entry is answered by it.
pub proof fn the_entry_answers_first(
    cfg: ConfigView,
    prices: Option<(u64, u64)>,
    req: Request,
    resource: Option<Seq<char>>,
    seen: Seen,
)
    ensures
        match entry::signed_entry(
            cfg,
            "quote"@,
            "POST"@,
            "/api/v1/quote"@,
            req,
            req.body@,
            seen.entry,
        ) {
            Entry::Ask(a) => quote_step(cfg, prices, req, resource, seen) == Step::Ask(
                Ask::Entry(a),
            ),
            Entry::Refuse(r) => quote_step(cfg, prices, req, resource, seen) == Step::Reply(r),
            Entry::Pass(_) => true,
        },
{
}

/// A notification is read where a secret is configured and the header is
/// `sha256=` and the HMAC-SHA256 of the raw body under it, in hexadecimal, with
/// or without white space around; else it is refused.
pub proof fn notifications_are_signed(
    cfg: ConfigView,
    selling: bool,
    header: Seq<char>,
    body: Seq<u8>,
    seen: Seen,
)
    ensures
        cfg.goblinpay_webhook_secret is None ==> webhook_step(
            cfg,
            selling,
            Some(header),
            body,
            seen,
        ) == Step::Reply(Reply { status: 404, body: Body::Error("not found"@) }),
        cfg.goblinpay_webhook_secret matches Some(secret) ==> {
            let expected = "sha256="@ + crypto::hex_text(crypto::hmac_of(encode_utf8(secret), body));
            &&& text::trimmed(header) == expected ==> webhook_step(
                cfg,
                selling,
                Some(header),
                body,
                seen,
            ) == webhook_signed(body, selling, seen)
            &&& text::trimmed(header) != expected ==> webhook_step(
                cfg,
                selling,
                Some(header),
                body,
                seen,
            ) == Step::Reply(Reply { status: 401, body: Body::Error("bad signature"@) })
            &&& webhook_step(cfg, selling, None, body, seen) == Step::Reply(
                Reply { status: 401, body: Body::Error("bad signature"@) },
            )
        },
{
    reveal_strlit("");
    reveal_strlit("sha256=");
    assert(text::trimmed(""@).len() == 0);
    if cfg.goblinpay_webhook_secret is Some {
        let expected = webhook_signature(cfg.goblinpay_webhook_secret->0, body);
        assert(expected.len() >= 7);
    }
}

/// A signed notification makes the grant of the invoice that it names paid,
/// once the backend itself calls that invoice paid, and is acknowledged in any
/// case. What is no JSON is refused.
pub proof fn notifications_promote_paid_grants(body: Seq<u8>, selling: bool, seen: Seen)
    ensures
        ({
            let step = webhook_signed(body, selling, seen);
            let ok = Step::Reply(Reply { status: 200, body: Body::<Seq<char>>::Acknowledged });
            match json::document(body) {
                None => step == Step::Reply(
                    Reply { status: 400, body: Body::Error("invalid body"@) },
                ),
                Some(nodes) => match json::text_member(nodes, "invoice_id"@) {
                    None => step == ok,
                    Some(id) => {
                        &&& seen.invoice_grant is None ==> step == Step::Ask(
                            Ask::GrantByInvoice { invoice_id: id },
                        )
                        &&& seen.invoice_grant == Some(None::<Grant>) ==> step == ok
                        &&& seen.invoice_grant matches Some(Some(grant)) ==> {
                            &&& !selling || grant.status@ == "paid"@ ==> step == ok
                            &&& selling && grant.status@ != "paid"@ ==> {
                                &&& seen.status is None ==> step == Step::Ask(
                                    Ask::InvoiceStatus { invoice_id: id },
                                )
                                &&& (seen.status matches Some(Some(status)) && status@ == "paid"@)
                                    && !seen.marked ==> step == Step::Ask(
                                    Ask::MarkPaid { invoice_id: id },
                                )
                                &&& (seen.status matches Some(Some(status)) && status@ == "paid"@)
                                    && seen.marked ==> step == ok
                                &&& (seen.status matches Some(Some(status)) && status@ != "paid"@)
                                    || seen.status == Some(None::<String>) ==> step == ok
                            }
                        }
                    },
                },
            }
        }),
{
}

/// What a handler asks for, and what it answers, is seen as it is.
pub proof fn api_views_show_the_texts(a: String, b: String, p: PaidAsk<String>, r: Reply<String>)
    ensures
        ask_view(Ask::Grant { pubkey: a, resource: b }) == (Ask::Grant {
            pubkey: a@,
            resource: b@,
        }),
        ask_view(Ask::Paid(p)) == Ask::Paid(paid::paid_ask_view(p)),
        ask_view(Ask::GrantByInvoice { invoice_id: a }) == (Ask::GrantByInvoice { invoice_id: a@ }),
        ask_view(Ask::InvoiceStatus { invoice_id: a }) == (Ask::InvoiceStatus { invoice_id: a@ }),
        ask_view(Ask::MarkPaid { invoice_id: a }) == (Ask::MarkPaid { invoice_id: a@ }),
        ask_view(Ask::Entry(EntryAsk::AllowRead { ip: a })) == Ask::Entry(
            EntryAsk::AllowRead { ip: a@ },
        ),
        step_view(Step::Ask(Ask::MarkPaid { invoice_id: a })) == Step::Ask(
            Ask::MarkPaid { invoice_id: a@ },
        ),
        step_view(Step::Reply(r)) == Step::Reply(r@),
{
}

} // verus!
