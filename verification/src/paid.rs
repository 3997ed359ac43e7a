//! Paid resources: one payment mechanism for whatever is sold.
//!
//! `name` (claiming a name) and `write` (publishing on the relay) are sold.
//! GoblinPay's own status of an invoice is the single source of truth; any
//! failure means "not paid yet".

use crate::config::{Config, ConfigView, PayMode};
use crate::json;
use crate::json::get_text;
use crate::text::same;
use vstd::prelude::*;
use vstd::string::*;

pub mod testing;

pub use crate::handlers::reply::payment_required_json;

verus! {

/// A GoblinPay invoice.
#[derive(Debug, Clone)]
pub struct Invoice {
    pub id: String,
    pub pay_url: String,
    pub status: String,
}

/// The payment backend.
pub trait PayBackend {
    /// Create an invoice.
    fn create_invoice(&mut self, order_ref: &str, amount_nanogrin: u64, memo: &str) -> (r: Result<
        Invoice,
        String,
    >);

    /// The status of an invoice: `open`, `paid` or `expired`.
    fn invoice_status(&self, invoice_id: &str) -> (r: Result<String, String>);
}

// ---------------------------------------------------------------------------
// GoblinPay
// ---------------------------------------------------------------------------

/// The GoblinPay REST server and the token for it.
pub struct GoblinPay {
    pub url: String,
    token: String,
}

/// What a [`GoblinPay`] holds.
pub struct GoblinPayView {
    pub url: Seq<char>,
    pub token: Seq<char>,
}

impl View for GoblinPay {
    type V = GoblinPayView;

    closed spec fn view(&self) -> GoblinPayView {
        GoblinPayView { url: self.url@, token: self.token@ }
    }
}

impl GoblinPay {
    /// The server at `url`.
    pub fn new(url: String, token: String) -> (server: GoblinPay)
        ensures
            server@ == (GoblinPayView { url: url@, token: token@ }),
    {
        GoblinPay { url, token }
    }

    /// The address to post a new invoice to.
    pub fn invoices_url(&self) -> (s: String)
        ensures
            s@ == self@.url + "/invoice"@,
    {
        let mut s = self.url.clone();
        s.append("/invoice");
        s
    }

    /// The address to read an invoice from.
    pub fn invoice_url(&self, invoice_id: &str) -> (s: String)
        ensures
            s@ == self@.url + "/invoice/"@ + invoice_id@,
    {
        let mut s = self.url.clone();
        s.append("/invoice/");
        s.append(invoice_id);
        s
    }

    /// The `Authorization` header of every request.
    pub fn authorization(&self) -> (s: String)
        ensures
            s@ == "Bearer "@ + self@.token,
    {
        let mut s = "Bearer ".to_owned();
        s.append(self.token.as_str());
        s
    }
}

/// An invoice over character sequences.
pub struct InvoiceView {
    pub id: Seq<char>,
    pub pay_url: Seq<char>,
    pub status: Seq<char>,
}

impl View for Invoice {
    type V = InvoiceView;

    open spec fn view(&self) -> InvoiceView {
        InvoiceView { id: self.id@, pay_url: self.pay_url@, status: self.status@ }
    }
}

/// The complaint about an answer without a field.
pub open spec fn missing(field: Seq<char>) -> Seq<char> {
    "goblinpay invoice missing `"@ + field + "`"@
}

/// The invoice that an answer of GoblinPay describes: the first field that is
/// missing refuses it.
pub open spec fn invoice_of(nodes: json::Nodes) -> Result<InvoiceView, Seq<char>> {
    let id = json::text_member(nodes, "invoice_id"@);
    let pay_url = json::text_member(nodes, "pay_url"@);
    let status = json::text_member(nodes, "status"@);
    if id is None {
        Err(missing("invoice_id"@))
    } else if pay_url is None {
        Err(missing("pay_url"@))
    } else if status is None {
        Err(missing("status"@))
    } else {
        Ok(InvoiceView { id: id->0, pay_url: pay_url->0, status: status->0 })
    }
}

fn field(body: &serde_json::Value, key: &str) -> (r: Result<String, String>)
    ensures
        match (r, json::text_member(json::value_nodes(*body), key@)) {
            (Ok(s), Some(v)) => s@ == v,
            (Err(e), None) => e@ == missing(key@),
            _ => false,
        },
{
    match get_text(body, key) {
        Some(s) => Ok(s),
        None => {
            let mut e = "goblinpay invoice missing `".to_owned();
            e.append(key);
            e.append("`");
            Err(e)
        },
    }
}

/// The invoice that an answer of GoblinPay describes.
pub fn parse_invoice(body: &serde_json::Value) -> (r: Result<Invoice, String>)
    ensures
        match (r, invoice_of(json::value_nodes(*body))) {
            (Ok(i), Ok(v)) => i@ == v,
            (Err(e), Err(f)) => e@ == f,
            _ => false,
        },
{
    let id = match field(body, "invoice_id") {
        Ok(s) => s,
        Err(e) => {
            return Err(e);
        },
    };
    let pay_url = match field(body, "pay_url") {
        Ok(s) => s,
        Err(e) => {
            return Err(e);
        },
    };
    let status = match field(body, "status") {
        Ok(s) => s,
        Err(e) => {
            return Err(e);
        },
    };
    Ok(Invoice { id, pay_url, status })
}

/// The status in an answer of GoblinPay.
pub fn parse_status(body: &serde_json::Value) -> (r: Result<String, String>)
    ensures
        match (r, json::text_member(json::value_nodes(*body), "status"@)) {
            (Ok(s), Some(v)) => s@ == v,
            (Err(e), None) => e@ == "goblinpay invoice status missing"@,
            _ => false,
        },
{
    match get_text(body, "status") {
        Some(s) => Ok(s),
        None => Err("goblinpay invoice status missing".to_owned()),
    }
}

// ---------------------------------------------------------------------------
// The paywall
// ---------------------------------------------------------------------------

/// A payment backend and the operator's prices. There is one only where
/// something is sold.
pub struct Paywall<B> {
    pub backend: B,
    pub name_price_nanogrin: u64,
    pub write_price_nanogrin: u64,
}

/// What a resource costs: nothing where it is not sold.
pub open spec fn price_of(name_price: u64, write_price: u64, resource: Seq<char>) -> u64 {
    if resource == "name"@ {
        name_price
    } else if resource == "write"@ {
        write_price
    } else {
        0
    }
}

impl<B> Paywall<B> {
    /// What a resource costs, in nanogrin.
    pub fn price_nanogrin(&self, resource: &str) -> (price: u64)
        ensures
            price == price_of(self.name_price_nanogrin, self.write_price_nanogrin, resource@),
    {
        if same(resource, "name") {
            return self.name_price_nanogrin;
        }
        if same(resource, "write") {
            return self.write_price_nanogrin;
        }
        0
    }
}

impl Paywall<GoblinPay> {
    /// The paywall of a configuration: none where everything is free.
    pub fn from_config(cfg: &Config) -> (wall: Option<Paywall<GoblinPay>>)
        ensures
            wall is Some <==> cfg@.pay_mode != PayMode::Off,
            wall matches Some(w) ==> {
                &&& w.backend@ == (GoblinPayView {
                    url: cfg@.goblinpay_url,
                    token: cfg@.goblinpay_token,
                })
                &&& w.name_price_nanogrin == cfg@.name_price_nanogrin
                &&& w.write_price_nanogrin == cfg@.write_price_nanogrin
            },
    {
        if cfg.pay_mode == PayMode::Off {
            return None;
        }
        Some(
            Paywall {
                backend: GoblinPay::new(cfg.goblinpay_url.clone(), cfg.goblinpay_token.clone()),
                name_price_nanogrin: cfg.name_price_nanogrin,
                write_price_nanogrin: cfg.write_price_nanogrin,
            },
        )
    }
}

/// Outcome of a paid-resource check.
#[derive(Debug, Clone)]
pub enum PaidOutcome<S> {
    /// The key holds a confirmed grant for the resource.
    Paid,
    /// Payment is still due; here is where to pay.
    Due { invoice_id: S, pay_url: S, price_nanogrin: u64 },
    /// The payment backend could not be reached or answered garbage. Callers
    /// treat it as not paid.
    Unavailable(S),
}

/// A row of `paid_grants`.
#[derive(Debug, Clone)]
pub struct Grant {
    pub pubkey: String,
    pub resource: String,
    pub invoice_id: String,
    pub pay_url: String,
    pub amount_nanogrin: u64,
    /// `pending` or `paid`.
    pub status: String,
}

/// What a paid-resource check asks for.
pub enum PaidAsk<S> {
    /// The grant of this key for this resource.
    Grant { pubkey: S, resource: S },
    /// Whether an operation of this bucket and key is younger than the window.
    Cooling { bucket: S, key: S, window: u64 },
    /// Remember an operation of this bucket and key.
    RecordOp { bucket: S, key: S },
    /// The status of an invoice, from the backend.
    InvoiceStatus { invoice_id: S },
    /// Make the grant of this invoice `paid`.
    MarkPaid { invoice_id: S },
    /// A new invoice, from the backend.
    CreateInvoice { order_ref: S, amount: u64, memo: S },
    /// Store the `pending` grant of this invoice, in place of an older one.
    StoreGrant { pubkey: S, resource: S, invoice_id: S, pay_url: S, amount: u64 },
}

/// What has been learned and done for a paid-resource check.
pub struct PaidSeen {
    pub grant: Option<Option<Grant>>,
    /// Whether the grant was polled too recently.
    pub cooling: Option<bool>,
    pub recorded: bool,
    pub status: Option<Result<String, String>>,
    pub marked: bool,
    pub created: Option<Result<Invoice, String>>,
    pub stored: bool,
}

/// Nothing learned yet.
pub open spec fn nothing() -> PaidSeen {
    PaidSeen {
        grant: None,
        cooling: None,
        recorded: false,
        status: None,
        marked: false,
        created: None,
        stored: false,
    }
}

impl PaidSeen {
    /// Nothing yet.
    pub fn new() -> (seen: PaidSeen)
        ensures
            seen == nothing(),
    {
        PaidSeen {
            grant: None,
            cooling: None,
            recorded: false,
            status: None,
            marked: false,
            created: None,
            stored: false,
        }
    }
}

/// Where a paid-resource check stands.
pub enum PaidStep<S> {
    Ask(PaidAsk<S>),
    Done(PaidOutcome<S>),
}

/// What a check asks for, over character sequences.
pub open spec fn paid_ask_view(a: PaidAsk<String>) -> PaidAsk<Seq<char>> {
    match a {
        PaidAsk::Grant { pubkey, resource } => PaidAsk::Grant {
            pubkey: pubkey@,
            resource: resource@,
        },
        PaidAsk::Cooling { bucket, key, window } => PaidAsk::Cooling {
            bucket: bucket@,
            key: key@,
            window,
        },
        PaidAsk::RecordOp { bucket, key } => PaidAsk::RecordOp { bucket: bucket@, key: key@ },
        PaidAsk::InvoiceStatus { invoice_id } => PaidAsk::InvoiceStatus {
            invoice_id: invoice_id@,
        },
        PaidAsk::MarkPaid { invoice_id } => PaidAsk::MarkPaid { invoice_id: invoice_id@ },
        PaidAsk::CreateInvoice { order_ref, amount, memo } => PaidAsk::CreateInvoice {
            order_ref: order_ref@,
            amount,
            memo: memo@,
        },
        PaidAsk::StoreGrant { pubkey, resource, invoice_id, pay_url, amount } =>
            PaidAsk::StoreGrant {
            pubkey: pubkey@,
            resource: resource@,
            invoice_id: invoice_id@,
            pay_url: pay_url@,
            amount,
        },
    }
}

/// An outcome over character sequences.
pub open spec fn outcome_view(o: PaidOutcome<String>) -> PaidOutcome<Seq<char>> {
    match o {
        PaidOutcome::Paid => PaidOutcome::Paid,
        PaidOutcome::Due { invoice_id, pay_url, price_nanogrin } => PaidOutcome::Due {
            invoice_id: invoice_id@,
            pay_url: pay_url@,
            price_nanogrin,
        },
        PaidOutcome::Unavailable(e) => PaidOutcome::Unavailable(e@),
    }
}

/// Where a check stands, over character sequences.
pub open spec fn paid_step_view(s: PaidStep<String>) -> PaidStep<Seq<char>> {
    match s {
        PaidStep::Ask(a) => PaidStep::Ask(paid_ask_view(a)),
        PaidStep::Done(o) => PaidStep::Done(outcome_view(o)),
    }
}

/// The key under which the polls of a grant are throttled.
pub open spec fn poll_key(pubkey: Seq<char>, resource: Seq<char>) -> Seq<char> {
    pubkey + ":"@ + resource
}

/// Buying a resource: an invoice is created, the pending grant is stored, and
/// payment is due. Where the backend fails, nothing is stored.
pub open spec fn buy(
    cfg: ConfigView,
    price: u64,
    pubkey: Seq<char>,
    resource: Seq<char>,
    seen: PaidSeen,
) -> PaidStep<Seq<char>> {
    match seen.created {
        None => PaidStep::Ask(
            PaidAsk::CreateInvoice {
                order_ref: "floonet-"@ + resource + ":"@ + pubkey,
                amount: price,
                memo: "Floonet "@ + resource + " ("@ + cfg.domain + ")"@,
            },
        ),
        Some(Err(e)) => PaidStep::Done(PaidOutcome::Unavailable(e@)),
        Some(Ok(invoice)) => if !seen.stored {
            PaidStep::Ask(
                PaidAsk::StoreGrant {
                    pubkey,
                    resource,
                    invoice_id: invoice.id@,
                    pay_url: invoice.pay_url@,
                    amount: price,
                },
            )
        } else {
            PaidStep::Done(
                PaidOutcome::Due {
                    invoice_id: invoice.id@,
                    pay_url: invoice.pay_url@,
                    price_nanogrin: price,
                },
            )
        },
    }
}

/// What a pending grant still owes.
pub open spec fn owed(grant: Grant) -> PaidStep<Seq<char>> {
    PaidStep::Done(
        PaidOutcome::Due {
            invoice_id: grant.invoice_id@,
            pay_url: grant.pay_url@,
            price_nanogrin: grant.amount_nanogrin,
        },
    )
}

/// A pending grant: its invoice is polled, unless it was polled too recently.
/// `paid` promotes the grant, `expired` buys anew, and in any other case, a
/// failed poll among them, the same payment is still due.
pub open spec fn pending(
    cfg: ConfigView,
    price: u64,
    pubkey: Seq<char>,
    resource: Seq<char>,
    grant: Grant,
    seen: PaidSeen,
) -> PaidStep<Seq<char>> {
    match seen.cooling {
        None => PaidStep::Ask(
            PaidAsk::Cooling {
                bucket: "paidpoll"@,
                key: poll_key(pubkey, resource),
                window: cfg.paid_poll_interval as u64,
            },
        ),
        Some(true) => owed(grant),
        Some(false) => if !seen.recorded {
            PaidStep::Ask(
                PaidAsk::RecordOp { bucket: "paidpoll"@, key: poll_key(pubkey, resource) },
            )
        } else {
            match seen.status {
                None => PaidStep::Ask(PaidAsk::InvoiceStatus { invoice_id: grant.invoice_id@ }),
                Some(Ok(status)) => if status@ == "paid"@ {
                    if !seen.marked {
                        PaidStep::Ask(PaidAsk::MarkPaid { invoice_id: grant.invoice_id@ })
                    } else {
                        PaidStep::Done(PaidOutcome::Paid)
                    }
                } else if status@ == "expired"@ {
                    buy(cfg, price, pubkey, resource, seen)
                } else {
                    owed(grant)
                },
                Some(Err(_)) => owed(grant),
            }
        },
    }
}

/// Where the check stands that `pubkey` has paid for `resource`. Without a
/// paywall everything is paid.
pub open spec fn ensure(
    cfg: ConfigView,
    prices: Option<(u64, u64)>,
    pubkey: Seq<char>,
    resource: Seq<char>,
    seen: PaidSeen,
) -> PaidStep<Seq<char>> {
    match prices {
        None => PaidStep::Done(PaidOutcome::Paid),
        Some((name_price, write_price)) => {
            let price = price_of(name_price, write_price, resource);
            match seen.grant {
                None => PaidStep::Ask(PaidAsk::Grant { pubkey, resource }),
                Some(Some(grant)) => if grant.status@ == "paid"@ {
                    PaidStep::Done(PaidOutcome::Paid)
                } else {
                    pending(cfg, price, pubkey, resource, grant, seen)
                },
                Some(None) => buy(cfg, price, pubkey, resource, seen),
            }
        },
    }
}

/// The prices of a paywall, where there is one.
pub open spec fn prices<B>(wall: Option<&Paywall<B>>) -> Option<(u64, u64)> {
    match wall {
        Some(w) => Some((w.name_price_nanogrin, w.write_price_nanogrin)),
        None => None,
    }
}

fn still_due(grant: &Grant) -> (step: PaidStep<String>)
    ensures
        paid_step_view(step) == owed(*grant),
{
    PaidStep::Done(
        PaidOutcome::Due {
            invoice_id: grant.invoice_id.clone(),
            pay_url: grant.pay_url.clone(),
            price_nanogrin: grant.amount_nanogrin,
        },
    )
}

/// Buy a resource: the next thing to do, or what is due.
pub fn new_grant(cfg: &Config, price: u64, pubkey: &str, resource: &str, seen: &PaidSeen) -> (step:
    PaidStep<String>)
    ensures
        paid_step_view(step) == buy(cfg@, price, pubkey@, resource@, *seen),
{
    match &seen.created {
        None => {
            let mut order_ref = "floonet-".to_owned();
            order_ref.append(resource);
            order_ref.append(":");
            order_ref.append(pubkey);
            let mut memo = "Floonet ".to_owned();
            memo.append(resource);
            memo.append(" (");
            memo.append(cfg.domain.as_str());
            memo.append(")");
            PaidStep::Ask(PaidAsk::CreateInvoice { order_ref, amount: price, memo })
        },
        Some(Err(e)) => PaidStep::Done(PaidOutcome::Unavailable(e.clone())),
        Some(Ok(invoice)) => {
            if !seen.stored {
                PaidStep::Ask(
                    PaidAsk::StoreGrant {
                        pubkey: pubkey.to_owned(),
                        resource: resource.to_owned(),
                        invoice_id: invoice.id.clone(),
                        pay_url: invoice.pay_url.clone(),
                        amount: price,
                    },
                )
            } else {
                PaidStep::Done(
                    PaidOutcome::Due {
                        invoice_id: invoice.id.clone(),
                        pay_url: invoice.pay_url.clone(),
                        price_nanogrin: price,
                    },
                )
            }
        },
    }
}

/// Make sure that `pubkey` has paid for `resource`: the next thing to find out
/// or to do, or the outcome.
pub fn ensure_paid<B>(
    cfg: &Config,
    wall: Option<&Paywall<B>>,
    pubkey: &str,
    resource: &str,
    seen: &PaidSeen,
) -> (step: PaidStep<String>)
    ensures
        paid_step_view(step) == ensure(cfg@, prices(wall), pubkey@, resource@, *seen),
{
    let price: u64 = match wall {
        None => {
            return PaidStep::Done(PaidOutcome::Paid);
        },
        Some(w) => w.price_nanogrin(resource),
    };
    let grant = match &seen.grant {
        None => {
            return PaidStep::Ask(
                PaidAsk::Grant { pubkey: pubkey.to_owned(), resource: resource.to_owned() },
            );
        },
        Some(None) => {
            return new_grant(cfg, price, pubkey, resource, seen);
        },
        Some(Some(g)) => g,
    };
    if same(grant.status.as_str(), "paid") {
        return PaidStep::Done(PaidOutcome::Paid);
    }
    let mut key = pubkey.to_owned();
    key.append(":");
    key.append(resource);
    match seen.cooling {
        None => {
            return PaidStep::Ask(
                PaidAsk::Cooling {
                    bucket: "paidpoll".to_owned(),
                    key,
                    window: cfg.paid_poll_interval,
                },
            );
        },
        Some(cooling) => {
            if cooling {
                return still_due(grant);
            }
        },
    }
    if !seen.recorded {
        return PaidStep::Ask(PaidAsk::RecordOp { bucket: "paidpoll".to_owned(), key });
    }
    match &seen.status {
        None => PaidStep::Ask(PaidAsk::InvoiceStatus { invoice_id: grant.invoice_id.clone() }),
        Some(Ok(status)) => {
            if same(status.as_str(), "paid") {
                if !seen.marked {
                    PaidStep::Ask(PaidAsk::MarkPaid { invoice_id: grant.invoice_id.clone() })
                } else {
                    PaidStep::Done(PaidOutcome::Paid)
                }
            } else if same(status.as_str(), "expired") {
                new_grant(cfg, price, pubkey, resource, seen)
            } else {
                still_due(grant)
            }
        },
        Some(Err(_)) => still_due(grant),
    }
}

// ---------------------------------------------------------------------------
// Laws
// ---------------------------------------------------------------------------

/// Whether what is asked for is still unknown or undone.
pub open spec fn paid_unknown(a: PaidAsk<Seq<char>>, seen: PaidSeen) -> bool {
    match a {
        PaidAsk::Grant { .. } => seen.grant is None,
        PaidAsk::Cooling { .. } => seen.cooling is None,
        PaidAsk::RecordOp { .. } => !seen.recorded,
        PaidAsk::InvoiceStatus { .. } => seen.status is None,
        PaidAsk::MarkPaid { .. } => !seen.marked,
        PaidAsk::CreateInvoice { .. } => seen.created is None,
        PaidAsk::StoreGrant { .. } => !seen.stored,
    }
}

/// A check asks for nothing that it already knows.
pub proof fn nothing_is_asked_twice(
    cfg: ConfigView,
    prices: Option<(u64, u64)>,
    pubkey: Seq<char>,
    resource: Seq<char>,
    seen: PaidSeen,
)
    ensures
        ensure(cfg, prices, pubkey, resource, seen) matches PaidStep::Ask(a) ==> paid_unknown(
            a,
            seen,
        ),
{
}

/// Where something is sold, a key counts as paid only where its grant is
/// `paid` already, or where the backend's own answer for the grant's invoice is
/// `paid` and the grant has been promoted. So any failure means "not paid".
pub proof fn paid_is_confirmed(
    cfg: ConfigView,
    prices: (u64, u64),
    pubkey: Seq<char>,
    resource: Seq<char>,
    seen: PaidSeen,
)
    ensures
        ensure(cfg, Some(prices), pubkey, resource, seen) == PaidStep::Done(
            PaidOutcome::<Seq<char>>::Paid,
        ) ==> {
            &&& seen.grant matches Some(Some(grant))
            &&& grant.status@ == "paid"@ || (seen.status matches Some(Ok(status)) && status@
                == "paid"@ && seen.marked)
        },
        ensure(cfg, Some(prices), pubkey, resource, seen) matches PaidStep::Ask(
            PaidAsk::MarkPaid { invoice_id },
        ) ==> {
            &&& seen.grant matches Some(Some(grant)) && invoice_id == grant.invoice_id@
            &&& seen.status matches Some(Ok(status)) && status@ == "paid"@
        },
{
}

/// A free authority charges nobody.
pub proof fn free_mode_is_always_paid(
    cfg: ConfigView,
    pubkey: Seq<char>,
    resource: Seq<char>,
    seen: PaidSeen,
)
    ensures
        ensure(cfg, None, pubkey, resource, seen) == PaidStep::Done(
            PaidOutcome::<Seq<char>>::Paid,
        ),
{
}

/// A pending grant is asked for again and again with the same invoice, address
/// and price, until the backend says `paid` or `expired`: no second invoice is
/// created beside it.
pub proof fn same_payment_stays_due(
    cfg: ConfigView,
    prices: (u64, u64),
    pubkey: Seq<char>,
    resource: Seq<char>,
    seen: PaidSeen,
    grant: Grant,
)
    requires
        seen.grant == Some(Some(grant)),
        grant.status@ != "paid"@,
        !(seen.status matches Some(Ok(status)) && (status@ == "paid"@ || status@ == "expired"@)),
    ensures
        match ensure(cfg, Some(prices), pubkey, resource, seen) {
            PaidStep::Done(PaidOutcome::Due { invoice_id, pay_url, price_nanogrin }) => invoice_id
                == grant.invoice_id@ && pay_url == grant.pay_url@ && price_nanogrin
                == grant.amount_nanogrin,
            PaidStep::Done(_) => false,
            PaidStep::Ask(a) => !(a is CreateInvoice) && !(a is StoreGrant) && !(a is MarkPaid),
        },
{
}

/// The backend is polled only where the last poll of the grant is long enough
/// ago, and only after this one has been remembered.
pub proof fn polls_are_throttled(
    cfg: ConfigView,
    prices: (u64, u64),
    pubkey: Seq<char>,
    resource: Seq<char>,
    seen: PaidSeen,
)
    ensures
        ensure(cfg, Some(prices), pubkey, resource, seen) matches PaidStep::Ask(
            PaidAsk::InvoiceStatus { .. },
        ) ==> seen.cooling == Some(false) && seen.recorded,
{
}

/// Resources are independent: what is read, created and stored for one carries
/// that resource and the key it is for.
pub proof fn resources_are_independent(
    cfg: ConfigView,
    prices: (u64, u64),
    pubkey: Seq<char>,
    resource: Seq<char>,
    seen: PaidSeen,
)
    ensures
        ensure(cfg, Some(prices), pubkey, resource, seen) matches PaidStep::Ask(
            PaidAsk::Grant { pubkey: k, resource: r },
        ) ==> k == pubkey && r == resource,
        ensure(cfg, Some(prices), pubkey, resource, seen) matches PaidStep::Ask(
            PaidAsk::StoreGrant { pubkey: k, resource: r, invoice_id, pay_url, amount },
        ) ==> k == pubkey && r == resource && amount == price_of(prices.0, prices.1, resource)
            && (seen.created matches Some(Ok(invoice)) && invoice.id@ == invoice_id),
        ensure(cfg, Some(prices), pubkey, resource, seen) matches PaidStep::Ask(
            PaidAsk::CreateInvoice { order_ref, amount, memo },
        ) ==> order_ref == "floonet-"@ + resource + ":"@ + pubkey && amount == price_of(
            prices.0,
            prices.1,
            resource,
        ),
{
}

/// Whether this is what a resource costs at these prices for a name and for
/// writing.
pub open spec fn is_price(prices: (u64, u64), resource: Seq<char>, price: u64) -> bool {
    ||| resource == "name"@ && price == prices.0
    ||| resource == "write"@ && price == prices.1
    ||| resource != "name"@ && resource != "write"@ && price == 0
}

/// Whether a check has come to where an invoice is to be bought: there is no
/// grant, or a pending one whose invoice the backend calls `expired`.
pub open spec fn is_to_buy(seen: PaidSeen) -> bool {
    ||| seen.grant == Some(None::<Grant>)
    ||| (seen.grant matches Some(Some(old)) && old.status@ != "paid"@) && seen.cooling == Some(false)
        && seen.recorded && (seen.status matches Some(Ok(status)) && status@ == "expired"@)
}

/// Each resource has its own price.
pub proof fn resources_have_their_price(prices: (u64, u64), resource: Seq<char>)
    ensures
        is_price(prices, resource, price_of(prices.0, prices.1, resource)),
        price_of(prices.0, prices.1, "name"@) == prices.0,
        price_of(prices.0, prices.1, "write"@) == prices.1,
{
    reveal_strlit("name");
    reveal_strlit("write");
    assert("name"@.len() != "write"@.len());
}

/// A purchase is made with the invoice that was just created for it. The
/// backend is asked for one at the resource's price, for this key and resource;
/// what is then stored, and what is then due, is that invoice's id, its own page
/// to pay on, and that price, whatever grant there was before. Where the backend
/// fails nothing is stored.
pub proof fn purchases_carry_their_own_invoice(
    cfg: ConfigView,
    prices: (u64, u64),
    pubkey: Seq<char>,
    resource: Seq<char>,
    seen: PaidSeen,
    price: u64,
)
    requires
        is_to_buy(seen),
        is_price(prices, resource, price),
    ensures
        match seen.created {
            None => ensure(cfg, Some(prices), pubkey, resource, seen) == PaidStep::Ask(
                PaidAsk::CreateInvoice {
                    order_ref: "floonet-"@ + resource + ":"@ + pubkey,
                    amount: price,
                    memo: "Floonet "@ + resource + " ("@ + cfg.domain + ")"@,
                },
            ),
            Some(Err(e)) => ensure(cfg, Some(prices), pubkey, resource, seen) == PaidStep::Done(
                PaidOutcome::Unavailable(e@),
            ),
            Some(Ok(invoice)) => {
                &&& !seen.stored ==> ensure(cfg, Some(prices), pubkey, resource, seen)
                    == PaidStep::Ask(
                    PaidAsk::StoreGrant {
                        pubkey,
                        resource,
                        invoice_id: invoice.id@,
                        pay_url: invoice.pay_url@,
                        amount: price,
                    },
                )
                &&& seen.stored ==> ensure(cfg, Some(prices), pubkey, resource, seen)
                    == PaidStep::Done(
                    PaidOutcome::Due {
                        invoice_id: invoice.id@,
                        pay_url: invoice.pay_url@,
                        price_nanogrin: price,
                    },
                )
            },
        },
{
    resources_have_their_price(prices, resource);
    reveal_strlit("name");
    reveal_strlit("write");
    reveal_strlit("paid");
    reveal_strlit("expired");
    assert("name"@.len() != "write"@.len());
    assert("paid"@.len() != "expired"@.len());
}

/// Nothing is bought elsewhere: an invoice is asked for, or a grant stored, only
/// where there is no grant or where the backend called the old invoice
/// `expired`.
pub proof fn nothing_else_is_bought(
    cfg: ConfigView,
    prices: (u64, u64),
    pubkey: Seq<char>,
    resource: Seq<char>,
    seen: PaidSeen,
)
    ensures
        ensure(cfg, Some(prices), pubkey, resource, seen) matches PaidStep::Ask(a) ==> (a
            is CreateInvoice || a is StoreGrant) ==> is_to_buy(seen),
{
}

/// A grant that is paid is paid, without asking anybody; where none is known
/// yet, the grant of this key for this resource is looked up.
pub proof fn paid_grants_are_paid(
    cfg: ConfigView,
    prices: (u64, u64),
    pubkey: Seq<char>,
    resource: Seq<char>,
    seen: PaidSeen,
)
    ensures
        seen.grant is None ==> ensure(cfg, Some(prices), pubkey, resource, seen) == PaidStep::Ask(
            PaidAsk::Grant { pubkey, resource },
        ),
        (seen.grant matches Some(Some(grant)) && grant.status@ == "paid"@) ==> ensure(
            cfg,
            Some(prices),
            pubkey,
            resource,
            seen,
        ) == PaidStep::Done(PaidOutcome::<Seq<char>>::Paid),
{
}

/// A pending grant is polled at most once in each interval, for its own invoice.
/// `paid` makes it paid; until then, and where the backend cannot be reached, the
/// payment that was asked for stays due.
pub proof fn pending_grants_are_polled(
    cfg: ConfigView,
    prices: (u64, u64),
    pubkey: Seq<char>,
    resource: Seq<char>,
    seen: PaidSeen,
    grant: Grant,
)
    requires
        seen.grant == Some(Some(grant)),
        grant.status@ != "paid"@,
        cfg.paid_poll_interval <= u64::MAX,
    ensures
        ({
            let step = ensure(cfg, Some(prices), pubkey, resource, seen);
            let due = PaidStep::Done(
                PaidOutcome::Due {
                    invoice_id: grant.invoice_id@,
                    pay_url: grant.pay_url@,
                    price_nanogrin: grant.amount_nanogrin,
                },
            );
            let key = pubkey + ":"@ + resource;
            &&& seen.cooling is None ==> (step matches PaidStep::Ask(
                PaidAsk::Cooling { bucket, key: k, window },
            ) && bucket == "paidpoll"@ && k == key && window == cfg.paid_poll_interval)
            &&& seen.cooling == Some(true) ==> step == due
            &&& seen.cooling == Some(false) && !seen.recorded ==> step == PaidStep::Ask(
                PaidAsk::RecordOp { bucket: "paidpoll"@, key },
            )
            &&& seen.cooling == Some(false) && seen.recorded ==> match seen.status {
                None => step == PaidStep::Ask(
                    PaidAsk::InvoiceStatus { invoice_id: grant.invoice_id@ },
                ),
                Some(Err(_)) => step == due,
                Some(Ok(status)) => {
                    &&& status@ == "paid"@ && !seen.marked ==> step == PaidStep::Ask(
                        PaidAsk::MarkPaid { invoice_id: grant.invoice_id@ },
                    )
                    &&& status@ == "paid"@ && seen.marked ==> step == PaidStep::Done(
                        PaidOutcome::<Seq<char>>::Paid,
                    )
                    &&& status@ != "paid"@ && status@ != "expired"@ ==> step == due
                },
            }
        }),
{
}

/// GoblinPay's answers are read field by field, and every field is needed.
pub proof fn invoices_are_read_field_by_field(nodes: json::Nodes)
    ensures
        match (
            json::text_member(nodes, "invoice_id"@),
            json::text_member(nodes, "pay_url"@),
            json::text_member(nodes, "status"@),
        ) {
            (Some(id), Some(pay_url), Some(status)) => invoice_of(nodes) == Ok::<
                InvoiceView,
                Seq<char>,
            >(InvoiceView { id, pay_url, status }),
            _ => invoice_of(nodes) is Err,
        },
        json::text_member(nodes, "invoice_id"@) is None ==> invoice_of(nodes) == Err::<
            InvoiceView,
            Seq<char>,
        >("goblinpay invoice missing `"@ + "invoice_id"@ + "`"@),
        json::text_member(nodes, "invoice_id"@) is Some && json::text_member(nodes, "pay_url"@)
            is None ==> invoice_of(nodes) == Err::<InvoiceView, Seq<char>>(
            "goblinpay invoice missing `"@ + "pay_url"@ + "`"@,
        ),
{
}

/// What a check asks for, and what comes of it, is seen as it is.
pub proof fn paid_views_show_the_texts(
    a: String,
    b: String,
    c: String,
    d: String,
    n: u64,
    wall: Paywall<GoblinPay>,
    invoice: Invoice,
)
    ensures
        paid_ask_view(PaidAsk::Grant { pubkey: a, resource: b }) == (PaidAsk::Grant {
            pubkey: a@,
            resource: b@,
        }),
        paid_ask_view(PaidAsk::Cooling { bucket: a, key: b, window: n }) == (PaidAsk::Cooling {
            bucket: a@,
            key: b@,
            window: n,
        }),
        paid_ask_view(PaidAsk::RecordOp { bucket: a, key: b }) == (PaidAsk::RecordOp {
            bucket: a@,
            key: b@,
        }),
        paid_ask_view(PaidAsk::InvoiceStatus { invoice_id: a }) == (PaidAsk::InvoiceStatus {
            invoice_id: a@,
        }),
        paid_ask_view(PaidAsk::MarkPaid { invoice_id: a }) == (PaidAsk::MarkPaid { invoice_id: a@ }),
        paid_ask_view(PaidAsk::CreateInvoice { order_ref: a, amount: n, memo: b }) == (
        PaidAsk::CreateInvoice { order_ref: a@, amount: n, memo: b@ }),
        paid_ask_view(
            PaidAsk::StoreGrant { pubkey: a, resource: b, invoice_id: c, pay_url: d, amount: n },
        ) == (PaidAsk::StoreGrant {
            pubkey: a@,
            resource: b@,
            invoice_id: c@,
            pay_url: d@,
            amount: n,
        }),
        paid_step_view(PaidStep::Ask(PaidAsk::MarkPaid { invoice_id: a })) == PaidStep::Ask(
            PaidAsk::MarkPaid { invoice_id: a@ },
        ),
        paid_step_view(
            PaidStep::Done(PaidOutcome::Due { invoice_id: a, pay_url: b, price_nanogrin: n }),
        ) == PaidStep::Done(
            PaidOutcome::Due { invoice_id: a@, pay_url: b@, price_nanogrin: n },
        ),
        paid_step_view(PaidStep::Done(PaidOutcome::Paid)) == PaidStep::Done(
            PaidOutcome::<Seq<char>>::Paid,
        ),
        paid_step_view(PaidStep::Done(PaidOutcome::Unavailable(a))) == PaidStep::Done(
            PaidOutcome::Unavailable(a@),
        ),
        prices(Some(&wall)) == Some((wall.name_price_nanogrin, wall.write_price_nanogrin)),
        prices::<GoblinPay>(None) is None,
        invoice@.id == invoice.id@ && invoice@.pay_url == invoice.pay_url@ && invoice@.status
            == invoice.status@,
{
}

} // verus!
