//! Name transfers: the offer and claim marketplace.
//!
//!   POST   /api/v1/transfer/offer          the seller lodges a signed offer
//!   GET    /api/v1/transfer/offer/{id}     anyone reads the offer and its status
//!   DELETE /api/v1/transfer/offer/{id}     the seller revokes the offer
//!   POST   /api/v1/transfer/claim          the buyer claims the name
//!
//! A transfer moves one name from the seller's key to the buyer's, after the
//! seller's signed offer and an on-chain Grin payment to the seller have been
//! verified. The authority never holds funds.

use crate::address;
use crate::config::{Config, ConfigView};
use crate::crypto;
use crate::db;
use crate::db::{to_stored, OfferRow};
use crate::digits;
use crate::digits::{parse_i64, parse_u64};
use crate::event;
use crate::event::{read_event, verify_event, NostrEvent};
use crate::handlers::entry;
use crate::handlers::entry::{pass_signed, Entry, EntryAsk, EntrySeen, Request};
use crate::handlers::reply;
use crate::handlers::reply::{refuse, Body, Reply};
use crate::json;
use crate::json::{compact, get, get_text};
use crate::names;
use crate::names::{valid_name, valid_pubkey_hex};
use crate::node::KernelResult;
use crate::payproof;
use crate::payproof::{
    decode_grin_address, normalize_grin_address, parse_payment_proof, verify_signatures,
    ParsedPaymentProof, ProofView,
};
use crate::text;
use crate::text::{chars_of, same, to_lower, trim};
use crate::util;
use crate::util::client_ip;
use vstd::prelude::*;
use vstd::string::*;
use vstd::utf8::*;

verus! {

/// The kind of an offer event.
pub const OFFER_KIND: u16 = 3402;

// ---------------------------------------------------------------------------
// What is asked for, and what has been learned
// ---------------------------------------------------------------------------

/// An offer to be stored as `live`.
pub struct NewOffer<S> {
    pub offer_id: S,
    pub event_json: S,
    pub name: S,
    pub seller: S,
    pub buyer: S,
    pub price: i64,
    pub proof_address: S,
    pub expiration: i64,
    pub created_at: i64,
}

/// What came of storing an offer.
#[derive(Debug, Clone, Copy, PartialEq, Eq, Structural)]
pub enum Inserted {
    Stored,
    /// The table already holds this offer id.
    Exists,
    Failed,
}

/// A transfer to be carried out in one transaction.
pub struct Plan<S> {
    pub offer_id: S,
    pub name: S,
    pub seller: S,
    pub buyer: S,
    pub price: i64,
    pub excess: S,
    pub kernel_height: Option<i64>,
    pub at: i64,
}

/// Why the transaction of a transfer was dropped.
#[derive(Debug, Clone, Copy, PartialEq, Eq, Structural)]
pub enum TxErr {
    OwnerChanged,
    BuyerHasName,
    Reused,
    Db,
}

/// A completed transfer.
pub struct Transfer {
    pub kernel_excess: String,
    pub name: String,
    pub buyer_pubkey: String,
}

/// What a handler asks for.
pub enum Ask<S> {
    Entry(EntryAsk<S>),
    /// The offer with this id.
    Offer { offer_id: S },
    /// The time, in seconds since the epoch.
    Now,
    /// The height of the chain.
    Tip,
    /// Where the offer is still `live`: give it this status, with the height
    /// and the time of its death.
    MarkDead { offer_id: S, status: S, end_height: Option<i64>, at: i64 },
    /// Make the offer `revoked` and keep the record of its death.
    MarkRevoked { offer_id: S },
    /// The offer with this id, once more.
    Reread { offer_id: S },
    /// The completed transfer of this offer.
    Transfer { offer_id: S },
    /// The key that holds this name.
    Owner { name: S },
    /// Whether a `live` offer for this name has not ended by then.
    LiveForName { name: S, now: i64 },
    /// Whether a `live` offer paid to this address has not ended by then.
    LiveForAddress { address: S, now: i64 },
    /// Store the offer.
    Insert(NewOffer<S>),
    /// The kernel with this excess.
    Kernel { excess: S },
    /// Whether a completed transfer used this excess.
    ExcessUsed { excess: S },
    /// The name that this key holds.
    NameOf { pubkey: S },
    /// Carry out the transfer.
    Execute(Plan<S>),
    /// Start the cooldown of this key in this bucket.
    Arm { bucket: S, key: S },
}

/// Where a handler stands.
pub enum Step<S> {
    Ask(Ask<S>),
    Reply(Reply<S>),
}

/// What has been learned and done for a request. Each field answers one kind
/// of [`Ask`].
pub struct Seen {
    pub entry: EntrySeen,
    pub offer: Option<Option<OfferRow>>,
    pub now: Option<i64>,
    /// The height of the chain, where a node named it.
    pub tip: Option<Option<u64>>,
    /// Whether the offer's death has been recorded.
    pub marked: bool,
    pub reread: Option<Option<OfferRow>>,
    pub transfer: Option<Option<Transfer>>,
    pub owner: Option<Option<String>>,
    pub live_for_name: Option<bool>,
    pub live_for_address: Option<bool>,
    pub inserted: Option<Inserted>,
    /// The kernel, where a node answered.
    pub kernel: Option<Option<KernelResult>>,
    pub excess_used: Option<bool>,
    pub buyer_name: Option<Option<String>>,
    pub executed: Option<Result<(), TxErr>>,
    /// Whether the seller's cooldown has been started.
    pub armed: bool,
}

/// Nothing learned yet.
pub open spec fn nothing() -> Seen {
    Seen {
        entry: entry::nothing(),
        offer: None,
        now: None,
        tip: None,
        marked: false,
        reread: None,
        transfer: None,
        owner: None,
        live_for_name: None,
        live_for_address: None,
        inserted: None,
        kernel: None,
        excess_used: None,
        buyer_name: None,
        executed: None,
        armed: false,
    }
}

impl Seen {
    /// Nothing yet.
    pub fn new() -> (seen: Seen)
        ensures
            seen == nothing(),
    {
        Seen {
            entry: EntrySeen::new(),
            offer: None,
            now: None,
            tip: None,
            marked: false,
            reread: None,
            transfer: None,
            owner: None,
            live_for_name: None,
            live_for_address: None,
            inserted: None,
            kernel: None,
            excess_used: None,
            buyer_name: None,
            executed: None,
            armed: false,
        }
    }
}

/// A new offer over character sequences.
pub open spec fn new_offer_view(o: NewOffer<String>) -> NewOffer<Seq<char>> {
    NewOffer {
        offer_id: o.offer_id@,
        event_json: o.event_json@,
        name: o.name@,
        seller: o.seller@,
        buyer: o.buyer@,
        price: o.price,
        proof_address: o.proof_address@,
        expiration: o.expiration,
        created_at: o.created_at,
    }
}

/// A plan over character sequences.
pub open spec fn plan_view(p: Plan<String>) -> Plan<Seq<char>> {
    Plan {
        offer_id: p.offer_id@,
        name: p.name@,
        seller: p.seller@,
        buyer: p.buyer@,
        price: p.price,
        excess: p.excess@,
        kernel_height: p.kernel_height,
        at: p.at,
    }
}

/// What a handler asks for, over character sequences.
pub open spec fn ask_view(a: Ask<String>) -> Ask<Seq<char>> {
    match a {
        Ask::Entry(g) => Ask::Entry(entry::entry_ask_view(g)),
        Ask::Offer { offer_id } => Ask::Offer { offer_id: offer_id@ },
        Ask::Now => Ask::Now,
        Ask::Tip => Ask::Tip,
        Ask::MarkDead { offer_id, status, end_height, at } => Ask::MarkDead {
            offer_id: offer_id@,
            status: status@,
            end_height,
            at,
        },
        Ask::MarkRevoked { offer_id } => Ask::MarkRevoked { offer_id: offer_id@ },
        Ask::Reread { offer_id } => Ask::Reread { offer_id: offer_id@ },
        Ask::Transfer { offer_id } => Ask::Transfer { offer_id: offer_id@ },
        Ask::Owner { name } => Ask::Owner { name: name@ },
        Ask::LiveForName { name, now } => Ask::LiveForName { name: name@, now },
        Ask::LiveForAddress { address, now } => Ask::LiveForAddress { address: address@, now },
        Ask::Insert(o) => Ask::Insert(new_offer_view(o)),
        Ask::Kernel { excess } => Ask::Kernel { excess: excess@ },
        Ask::ExcessUsed { excess } => Ask::ExcessUsed { excess: excess@ },
        Ask::NameOf { pubkey } => Ask::NameOf { pubkey: pubkey@ },
        Ask::Execute(p) => Ask::Execute(plan_view(p)),
        Ask::Arm { bucket, key } => Ask::Arm { bucket: bucket@, key: key@ },
    }
}

/// Where a handler stands, over character sequences.
pub open spec fn step_view(s: Step<String>) -> Step<Seq<char>> {
    match s {
        Step::Ask(a) => Step::Ask(ask_view(a)),
        Step::Reply(r) => Step::Reply(r@),
    }
}

/// A refusal as a handler's answer.
pub open spec fn refused(status: u16, why: Seq<char>) -> Step<Seq<char>> {
    Step::Reply(reply::refusal(status, why))
}

fn refuse_step(status: u16, why: &str) -> (s: Step<String>)
    ensures
        step_view(s) == refused(status, why@),
{
    Step::Reply(refuse(status, why))
}

// ---------------------------------------------------------------------------
// Offer events
// ---------------------------------------------------------------------------

/// The six tags of an offer event.
pub struct OfferTags<S> {
    pub name: S,
    pub domain: S,
    pub buyer: S,
    pub price: S,
    pub proof_address: S,
    pub expiration: S,
}

/// The second text of the last tag that has `key` for its first text: none
/// where that tag has no second.
pub open spec fn last_tag(tags: Seq<Seq<Seq<char>>>, key: Seq<char>) -> Option<Seq<char>>
    decreases tags.len(),
{
    if tags.len() == 0 {
        None
    } else if tags.last().len() > 0 && tags.last()[0] == key {
        if tags.last().len() > 1 {
            Some(tags.last()[1])
        } else {
            None
        }
    } else {
        last_tag(tags.drop_last(), key)
    }
}

/// The six tags of an offer event, where it has them all.
pub open spec fn offer_tags(tags: Seq<Seq<Seq<char>>>) -> Option<OfferTags<Seq<char>>> {
    let name = last_tag(tags, "name"@);
    let domain = last_tag(tags, "domain"@);
    let buyer = last_tag(tags, "p"@);
    let price = last_tag(tags, "price"@);
    let proof_address = last_tag(tags, "proof_address"@);
    let expiration = last_tag(tags, "expiration"@);
    if name is Some && domain is Some && buyer is Some && price is Some && proof_address is Some
        && expiration is Some {
        Some(
            OfferTags {
                name: name->0,
                domain: domain->0,
                buyer: buyer->0,
                price: price->0,
                proof_address: proof_address->0,
                expiration: expiration->0,
            },
        )
    } else {
        None
    }
}

/// Tags over character sequences.
pub open spec fn offer_tags_view(t: OfferTags<String>) -> OfferTags<Seq<char>> {
    OfferTags {
        name: t.name@,
        domain: t.domain@,
        buyer: t.buyer@,
        price: t.price@,
        proof_address: t.proof_address@,
        expiration: t.expiration@,
    }
}

fn find_last(tags: &Vec<Vec<String>>, key: &str) -> (v: Option<String>)
    ensures
        text::opt_view(v) == last_tag(event::tag_views(tags@), key@),
{
    let ghost all = event::tag_views(tags@);
    let mut i: usize = tags.len();
    assert(all.take(i as int) =~= all);
    while i > 0
        invariant
            i <= tags.len(),
            all == event::tag_views(tags@),
            last_tag(all, key@) == last_tag(all.take(i as int), key@),
        decreases i,
    {
        let tag = &tags[i - 1];
        assert(all.take(i as int).last() == text::views(tag@));
        assert(all.take(i as int).drop_last() =~= all.take(i - 1));
        if tag.len() > 0 && same(tag[0].as_str(), key) {
            if tag.len() > 1 {
                return Some(tag[1].clone());
            }
            return None;
        }
        i = i - 1;
    }
    None
}

/// The six tags of an offer event: `None` where one is missing.
pub fn extract_offer_tags(e: &NostrEvent) -> (tags: Option<OfferTags<String>>)
    ensures
        match (tags, offer_tags(e@.tags)) {
            (Some(t), Some(v)) => offer_tags_view(t) == v,
            (None, None) => true,
            _ => false,
        },
{
    let name = find_last(&e.tags, "name")?;
    let domain = find_last(&e.tags, "domain")?;
    let buyer = find_last(&e.tags, "p")?;
    let price = find_last(&e.tags, "price")?;
    let proof_address = find_last(&e.tags, "proof_address")?;
    let expiration = find_last(&e.tags, "expiration")?;
    Some(OfferTags { name, domain, buyer, price, proof_address, expiration })
}

/// What an offer offers.
pub struct Terms<S> {
    pub name: S,
    pub buyer: S,
    pub price: u64,
    pub proof_address: S,
    pub expiration: i64,
}

/// What an offer with these tags offers, where this authority can take it: a
/// name of its own domain, a buyer's key, a price in nanogrin, a Grin address
/// to pay to, and the time at which it ends.
pub open spec fn terms_of(cfg: ConfigView, tags: OfferTags<Seq<char>>) -> Option<
    Terms<Seq<char>>,
> {
    let buyer = text::lower(tags.buyer);
    let price = digits::unsigned_value(text::trimmed(tags.price), u64::MAX as nat);
    let proof_address = address::normal_address(tags.proof_address);
    let expiration = digits::signed_value(text::trimmed(tags.expiration));
    if names::is_name(tags.name, cfg.name_min as int, cfg.name_max as int) && tags.domain
        == cfg.domain && names::is_pubkey_hex(buyer) && price is Some && address::address_key(
        proof_address,
    ) is Some && expiration is Some {
        Some(
            Terms {
                name: tags.name,
                buyer,
                price: price->0 as u64,
                proof_address,
                expiration: expiration->0 as i64,
            },
        )
    } else {
        None
    }
}

/// Terms over character sequences.
pub open spec fn terms_view(t: Terms<String>) -> Terms<Seq<char>> {
    Terms {
        name: t.name@,
        buyer: t.buyer@,
        price: t.price,
        proof_address: t.proof_address@,
        expiration: t.expiration,
    }
}

/// What an offer with these tags offers: `None` where this authority cannot
/// take it.
pub fn read_terms(cfg: &Config, tags: &OfferTags<String>) -> (terms: Option<Terms<String>>)
    ensures
        match (terms, terms_of(cfg@, offer_tags_view(*tags))) {
            (Some(t), Some(v)) => terms_view(t) == v,
            (None, None) => true,
            _ => false,
        },
{
    if !valid_name(tags.name.as_str(), cfg.name_min, cfg.name_max) {
        return None;
    }
    if !same(tags.domain.as_str(), cfg.domain.as_str()) {
        return None;
    }
    let buyer = to_lower(tags.buyer.as_str());
    if !valid_pubkey_hex(buyer.as_str()) {
        return None;
    }
    let price: u64 = match parse_u64(trim(tags.price.as_str())) {
        Some(p) => p,
        None => {
            return None;
        },
    };
    let proof_address = normalize_grin_address(tags.proof_address.as_str());
    if decode_grin_address(proof_address.as_str()).is_none() {
        return None;
    }
    let expiration: i64 = match parse_i64(trim(tags.expiration.as_str())) {
        Some(t) => t,
        None => {
            return None;
        },
    };
    Some(Terms { name: tags.name.clone(), buyer, price, proof_address, expiration })
}

// ---------------------------------------------------------------------------
// Lodging
// ---------------------------------------------------------------------------

/// What is answered to an event that a seller lodges. The event's own faults
/// come first, then the time, the owner, and the offers that are live.
pub open spec fn lodge_event(
    cfg: ConfigView,
    auth_pubkey: Seq<char>,
    e: event::EventView,
    seen: Seen,
) -> Step<Seq<char>> {
    if e.kind != OFFER_KIND {
        refused(400, "invalid offer"@)
    } else if e.pubkey != auth_pubkey {
        refused(401, "auth pubkey does not match offer pubkey"@)
    } else {
        match offer_tags(e.tags) {
            None => refused(400, "invalid offer"@),
            Some(tags) => match terms_of(cfg, tags) {
                None => refused(400, "invalid offer"@),
                Some(terms) => lodge_terms(cfg, e, terms, seen),
            },
        }
    }
}

/// What is answered to an offer with good terms.
pub open spec fn lodge_terms(
    cfg: ConfigView,
    e: event::EventView,
    terms: Terms<Seq<char>>,
    seen: Seen,
) -> Step<Seq<char>> {
    match seen.now {
        None => Step::Ask(Ask::Now),
        Some(now) => if terms.expiration <= now || terms.expiration > now
            + cfg.transfer_max_offer_ttl {
            refused(400, "invalid offer"@)
        } else {
            match seen.owner {
                None => Step::Ask(Ask::Owner { name: terms.name }),
                Some(owner) => if text::opt_view(owner) != Some(e.pubkey) {
                    refused(403, "not the owner"@)
                } else {
                    match seen.live_for_name {
                        None => Step::Ask(Ask::LiveForName { name: terms.name, now }),
                        Some(true) => refused(409, "offer_exists"@),
                        Some(false) => match seen.live_for_address {
                            None => Step::Ask(
                                Ask::LiveForAddress { address: terms.proof_address, now },
                            ),
                            Some(true) => refused(409, "offer_ambiguous"@),
                            Some(false) => match seen.inserted {
                                None => Step::Ask(Ask::Insert(lodged(e, terms, now))),
                                Some(Inserted::Stored) => Step::Reply(
                                    Reply {
                                        status: 201,
                                        body: Body::Lodged {
                                            offer_id: e.id,
                                            name: terms.name,
                                            expires_at: terms.expiration,
                                        },
                                    },
                                ),
                                Some(Inserted::Exists) => refused(409, "offer_exists"@),
                                Some(Inserted::Failed) => refused(500, "db error"@),
                            },
                        },
                    }
                },
            }
        },
    }
}

/// The offer that is stored for an event.
pub open spec fn lodged(e: event::EventView, terms: Terms<Seq<char>>, now: i64) -> NewOffer<
    Seq<char>,
> {
    NewOffer {
        offer_id: e.id,
        event_json: e.json,
        name: terms.name,
        seller: e.pubkey,
        buyer: terms.buyer,
        price: db::stored(terms.price) as i64,
        proof_address: terms.proof_address,
        expiration: terms.expiration,
        created_at: now,
    }
}

/// The JSON of the event in the body of a lodge request, where there is one.
pub open spec fn offered_json(body: Seq<u8>) -> Option<Seq<u8>> {
    match json::document(body) {
        None => None,
        Some(nodes) => match json::member(nodes, "offer"@) {
            None => None,
            Some(offer) => Some(encode_utf8(json::root(offer).written)),
        },
    }
}

/// What a lodge request is answered.
pub open spec fn lodge(cfg: ConfigView, req: Request, seen: Seen) -> Step<Seq<char>> {
    match entry::signed_entry(
        cfg,
        "transfer"@,
        "POST"@,
        "/api/v1/transfer/offer"@,
        req,
        req.body@,
        seen.entry,
    ) {
        Entry::Ask(a) => Step::Ask(Ask::Entry(a)),
        Entry::Refuse(r) => Step::Reply(r),
        Entry::Pass(key) => match offered_json(req.body@) {
            None => refused(400, "invalid offer"@),
            Some(bytes) => match event::event_of(bytes) {
                None => refused(400, "invalid offer"@),
                Some(e) => if !event::event_signed(bytes) {
                    refused(400, "invalid offer"@)
                } else {
                    lodge_event(cfg, key, e, seen)
                },
            },
        },
    }
}

/// Answer the event that a seller lodges, once its signature has been checked.
pub fn lodge_signed(cfg: &Config, auth_pubkey: &str, e: &NostrEvent, seen: &Seen) -> (step: Step<
    String,
>)
    ensures
        step_view(step) == lodge_event(cfg@, auth_pubkey@, e@, *seen),
{
    if e.kind != OFFER_KIND {
        return refuse_step(400, "invalid offer");
    }
    if !same(e.pubkey.as_str(), auth_pubkey) {
        return refuse_step(401, "auth pubkey does not match offer pubkey");
    }
    let tags = match extract_offer_tags(e) {
        Some(t) => t,
        None => {
            return refuse_step(400, "invalid offer");
        },
    };
    let terms = match read_terms(cfg, &tags) {
        Some(t) => t,
        None => {
            return refuse_step(400, "invalid offer");
        },
    };
    let now: i64 = match seen.now {
        None => {
            return Step::Ask(Ask::Now);
        },
        Some(t) => t,
    };
    let latest: i128 = now as i128 + cfg.transfer_max_offer_ttl as i128;
    if terms.expiration <= now || terms.expiration as i128 > latest {
        return refuse_step(400, "invalid offer");
    }
    match &seen.owner {
        None => {
            return Step::Ask(Ask::Owner { name: terms.name });
        },
        Some(owner) => {
            let owned = match owner {
                Some(key) => same(key.as_str(), e.pubkey.as_str()),
                None => false,
            };
            if !owned {
                return refuse_step(403, "not the owner");
            }
        },
    }
    match seen.live_for_name {
        None => {
            return Step::Ask(Ask::LiveForName { name: terms.name, now });
        },
        Some(live) => {
            if live {
                return refuse_step(409, "offer_exists");
            }
        },
    }
    match seen.live_for_address {
        None => {
            return Step::Ask(Ask::LiveForAddress { address: terms.proof_address, now });
        },
        Some(live) => {
            if live {
                return refuse_step(409, "offer_ambiguous");
            }
        },
    }
    match seen.inserted {
        None => Step::Ask(
            Ask::Insert(
                NewOffer {
                    offer_id: e.id.clone(),
                    event_json: e.json.clone(),
                    name: terms.name,
                    seller: e.pubkey.clone(),
                    buyer: terms.buyer,
                    price: to_stored(terms.price),
                    proof_address: terms.proof_address,
                    expiration: terms.expiration,
                    created_at: now,
                },
            ),
        ),
        Some(Inserted::Stored) => Step::Reply(
            Reply {
                status: 201,
                body: Body::Lodged {
                    offer_id: e.id.clone(),
                    name: terms.name,
                    expires_at: terms.expiration,
                },
            },
        ),
        Some(Inserted::Exists) => refuse_step(409, "offer_exists"),
        Some(Inserted::Failed) => refuse_step(500, "db error"),
    }
}

/// POST /api/v1/transfer/offer: lodge a seller's signed offer.
pub fn lodge_offer(cfg: &Config, req: &Request, seen: &Seen) -> (step: Step<String>)
    ensures
        step_view(step) == lodge(cfg@, *req, *seen),
{
    let key = match pass_signed(
        cfg,
        "transfer",
        "POST",
        "/api/v1/transfer/offer",
        req,
        req.body.as_slice(),
        &seen.entry,
    ) {
        Entry::Ask(a) => {
            return Step::Ask(Ask::Entry(a));
        },
        Entry::Refuse(r) => {
            return Step::Reply(r);
        },
        Entry::Pass(key) => key,
    };
    let value = match json::read(req.body.as_slice()) {
        Some(v) => v,
        None => {
            return refuse_step(400, "invalid offer");
        },
    };
    let offer = match get(&value, "offer") {
        Some(o) => o,
        None => {
            return refuse_step(400, "invalid offer");
        },
    };
    let written = compact(offer);
    let bytes = written.as_str().as_bytes();
    let e = match read_event(bytes) {
        Some(e) => e,
        None => {
            return refuse_step(400, "invalid offer");
        },
    };
    if !verify_event(bytes) {
        return refuse_step(400, "invalid offer");
    }
    lodge_signed(cfg, key.as_str(), &e, seen)
}

// ---------------------------------------------------------------------------
// Expiry
// ---------------------------------------------------------------------------

/// Where settling an offer's expiry stands.
pub enum Settled {
    /// Something is to be found out or done first.
    Ask(Ask<Seq<char>>),
    /// The offer as it stands now.
    Row(OfferRow),
}

/// The height of the chain as it is stored, where a node named it.
pub open spec fn stored_tip(tip: Option<u64>) -> Option<i64> {
    match tip {
        Some(h) => Some(db::stored(h) as i64),
        None => None,
    }
}

/// An offer that is `live` but has ended becomes `expired`, with the height of
/// the chain at that moment where a node names it: without one a late claim
/// fails. Any other offer stands as it is.
pub open spec fn settle(row: OfferRow, now: i64, seen: Seen) -> Settled {
    if row.status@ != "live"@ || row.expiration >= now {
        Settled::Row(row)
    } else {
        match seen.tip {
            None => Settled::Ask(Ask::Tip),
            Some(tip) => if !seen.marked {
                Settled::Ask(
                    Ask::MarkDead {
                        offer_id: row.offer_id@,
                        status: "expired"@,
                        end_height: stored_tip(tip),
                        at: now,
                    },
                )
            } else {
                match seen.reread {
                    None => Settled::Ask(Ask::Reread { offer_id: row.offer_id@ }),
                    Some(Some(fresh)) => Settled::Row(fresh),
                    Some(None) => Settled::Row(row),
                }
            },
        }
    }
}

fn store_tip(tip: Option<u64>) -> (h: Option<i64>)
    ensures
        h == stored_tip(tip),
{
    match tip {
        Some(h) => Some(to_stored(h)),
        None => None,
    }
}

/// Settle an offer that may have ended: the offer as it stands now, or what to
/// find out or do first.
pub fn settle_expiry<'a>(row: &'a OfferRow, now: i64, seen: &'a Seen) -> (r: Result<
    &'a OfferRow,
    Ask<String>,
>)
    ensures
        match (r, settle(*row, now, *seen)) {
            (Ok(a), Settled::Row(b)) => *a == b,
            (Err(a), Settled::Ask(b)) => ask_view(a) == b,
            _ => false,
        },
{
    if !same(row.status.as_str(), "live") || row.expiration >= now {
        return Ok(row);
    }
    let tip = match seen.tip {
        None => {
            return Err(Ask::Tip);
        },
        Some(t) => t,
    };
    if !seen.marked {
        return Err(
            Ask::MarkDead {
                offer_id: row.offer_id.clone(),
                status: "expired".to_owned(),
                end_height: store_tip(tip),
                at: now,
            },
        );
    }
    match &seen.reread {
        None => Err(Ask::Reread { offer_id: row.offer_id.clone() }),
        Some(Some(fresh)) => Ok(fresh),
        Some(None) => Ok(row),
    }
}

// ---------------------------------------------------------------------------
// Reading
// ---------------------------------------------------------------------------

/// What a request to read an offer is answered.
pub open spec fn read(offer_id: Seq<char>, req: Request, seen: Seen) -> Step<Seq<char>> {
    match seen.entry.allowed {
        None => Step::Ask(Ask::Entry(EntryAsk::AllowRead { ip: util::ip_of(req.real_ip) })),
        Some(false) => refused(429, "rate_limited"@),
        Some(true) => match seen.offer {
            None => Step::Ask(Ask::Offer { offer_id }),
            Some(None) => refused(404, "not found"@),
            Some(Some(row)) => match seen.now {
                None => Step::Ask(Ask::Now),
                Some(now) => match settle(row, now, seen) {
                    Settled::Ask(a) => Step::Ask(a),
                    Settled::Row(row) => Step::Reply(
                        Reply {
                            status: 200,
                            body: Body::Offer {
                                event_json: row.event_json@,
                                status: row.status@,
                            },
                        },
                    ),
                },
            },
        },
    }
}

/// GET /api/v1/transfer/offer/{offer_id}: the offer and its status.
pub fn read_offer(offer_id: &str, req: &Request, seen: &Seen) -> (step: Step<String>)
    ensures
        step_view(step) == read(offer_id@, *req, *seen),
{
    match seen.entry.allowed {
        None => {
            return Step::Ask(Ask::Entry(EntryAsk::AllowRead { ip: client_ip(&req.real_ip) }));
        },
        Some(allowed) => {
            if !allowed {
                return refuse_step(429, "rate_limited");
            }
        },
    }
    let row = match &seen.offer {
        None => {
            return Step::Ask(Ask::Offer { offer_id: offer_id.to_owned() });
        },
        Some(None) => {
            return refuse_step(404, "not found");
        },
        Some(Some(row)) => row,
    };
    let now: i64 = match seen.now {
        None => {
            return Step::Ask(Ask::Now);
        },
        Some(t) => t,
    };
    match settle_expiry(row, now, seen) {
        Err(a) => Step::Ask(a),
        Ok(row) => Step::Reply(
            Reply {
                status: 200,
                body: Body::Offer {
                    event_json: row.event_json.clone(),
                    status: row.status.clone(),
                },
            },
        ),
    }
}

// ---------------------------------------------------------------------------
// Revoking
// ---------------------------------------------------------------------------

/// The answer to an offer that is revoked.
pub open spec fn revoked(offer_id: Seq<char>) -> Step<Seq<char>> {
    Step::Reply(Reply { status: 200, body: Body::Revoked { offer_id } })
}

/// What the owner of a key is answered who revokes an offer: only its seller
/// may, and not once it is consumed. A live offer dies now, at the height of
/// the chain; one that is dead already keeps the record of its death.
pub open spec fn revoke_row(
    offer_id: Seq<char>,
    auth_pubkey: Seq<char>,
    row: OfferRow,
    seen: Seen,
) -> Step<Seq<char>> {
    if auth_pubkey != row.seller_pubkey@ {
        refused(403, "not the owner"@)
    } else if row.status@ == "consumed"@ {
        refused(409, "offer_consumed"@)
    } else if row.status@ == "revoked"@ {
        revoked(offer_id)
    } else if row.status@ == "live"@ {
        match seen.now {
            None => Step::Ask(Ask::Now),
            Some(now) => match seen.tip {
                None => Step::Ask(Ask::Tip),
                Some(tip) => if !seen.marked {
                    Step::Ask(
                        Ask::MarkDead {
                            offer_id: row.offer_id@,
                            status: "revoked"@,
                            end_height: stored_tip(tip),
                            at: now,
                        },
                    )
                } else {
                    revoked(offer_id)
                },
            },
        }
    } else if !seen.marked {
        Step::Ask(Ask::MarkRevoked { offer_id: row.offer_id@ })
    } else {
        revoked(offer_id)
    }
}

/// What a request to revoke an offer is answered.
pub open spec fn revoke(cfg: ConfigView, offer_id: Seq<char>, req: Request, seen: Seen) -> Step<
    Seq<char>,
> {
    match entry::signed_entry(
        cfg,
        "transfer"@,
        "DELETE"@,
        "/api/v1/transfer/offer/"@ + offer_id,
        req,
        Seq::empty(),
        seen.entry,
    ) {
        Entry::Ask(a) => Step::Ask(Ask::Entry(a)),
        Entry::Refuse(r) => Step::Reply(r),
        Entry::Pass(key) => match seen.offer {
            None => Step::Ask(Ask::Offer { offer_id }),
            Some(None) => refused(404, "not found"@),
            Some(Some(row)) => revoke_row(offer_id, key, row, seen),
        },
    }
}

fn revoked_step(offer_id: &str) -> (step: Step<String>)
    ensures
        step_view(step) == revoked(offer_id@),
{
    Step::Reply(Reply { status: 200, body: Body::Revoked { offer_id: offer_id.to_owned() } })
}

/// Answer the owner of a key who revokes an offer.
pub fn revoke_signed(offer_id: &str, auth_pubkey: &str, row: &OfferRow, seen: &Seen) -> (step: Step<
    String,
>)
    ensures
        step_view(step) == revoke_row(offer_id@, auth_pubkey@, *row, *seen),
{
    if !same(auth_pubkey, row.seller_pubkey.as_str()) {
        return refuse_step(403, "not the owner");
    }
    if same(row.status.as_str(), "consumed") {
        return refuse_step(409, "offer_consumed");
    }
    if same(row.status.as_str(), "revoked") {
        return revoked_step(offer_id);
    }
    if same(row.status.as_str(), "live") {
        let now: i64 = match seen.now {
            None => {
                return Step::Ask(Ask::Now);
            },
            Some(t) => t,
        };
        let tip = match seen.tip {
            None => {
                return Step::Ask(Ask::Tip);
            },
            Some(t) => t,
        };
        if !seen.marked {
            return Step::Ask(
                Ask::MarkDead {
                    offer_id: row.offer_id.clone(),
                    status: "revoked".to_owned(),
                    end_height: store_tip(tip),
                    at: now,
                },
            );
        }
    } else if !seen.marked {
        return Step::Ask(Ask::MarkRevoked { offer_id: row.offer_id.clone() });
    }
    revoked_step(offer_id)
}

/// DELETE /api/v1/transfer/offer/{offer_id}: the seller revokes the offer.
pub fn revoke_offer(cfg: &Config, offer_id: &str, req: &Request, seen: &Seen) -> (step: Step<
    String,
>)
    ensures
        step_view(step) == revoke(cfg@, offer_id@, *req, *seen),
{
    let mut path = "/api/v1/transfer/offer/".to_owned();
    path.append(offer_id);
    let unsigned: Vec<u8> = Vec::new();
    let key = match pass_signed(
        cfg,
        "transfer",
        "DELETE",
        path.as_str(),
        req,
        unsigned.as_slice(),
        &seen.entry,
    ) {
        Entry::Ask(a) => {
            return Step::Ask(Ask::Entry(a));
        },
        Entry::Refuse(r) => {
            return Step::Reply(r);
        },
        Entry::Pass(key) => key,
    };
    match &seen.offer {
        None => Step::Ask(Ask::Offer { offer_id: offer_id.to_owned() }),
        Some(None) => refuse_step(404, "not found"),
        Some(Some(row)) => revoke_signed(offer_id, key.as_str(), row, seen),
    }
}

// ---------------------------------------------------------------------------
// The transaction
// ---------------------------------------------------------------------------

/// A statement of the transaction that carries a transfer out.
pub enum Statement<S> {
    Begin,
    /// Give the name to the buyer, where the seller still holds it.
    MoveName { name: S, seller: S, buyer: S, at: i64 },
    /// Record the transfer; the table takes each excess once.
    Record(Plan<S>),
    /// Make the offer `consumed`.
    Consume { offer_id: S },
    Commit,
}

/// What came of a statement.
#[derive(Debug, Clone, Copy, PartialEq, Eq, Structural)]
pub enum Outcome {
    /// It changed this many rows.
    Rows(u64),
    /// It broke a constraint of the schema.
    Constraint,
    Failed,
}

/// Where the transaction stands.
pub enum Txn<S> {
    Run(Statement<S>),
    Done(Result<(), TxErr>),
}

/// The transaction, statement by statement. It begins, moves exactly one name
/// row, records the transfer, consumes the offer and commits. The first
/// statement that fails drops it, and nothing of it is kept.
pub open spec fn txn(plan: Plan<Seq<char>>, outcomes: Seq<Outcome>) -> Txn<Seq<char>> {
    if outcomes.len() == 0 {
        Txn::Run(Statement::Begin)
    } else if outcomes[0] !is Rows {
        Txn::Done(Err(TxErr::Db))
    } else if outcomes.len() == 1 {
        Txn::Run(
            Statement::MoveName {
                name: plan.name,
                seller: plan.seller,
                buyer: plan.buyer,
                at: plan.at,
            },
        )
    } else if outcomes[1] is Constraint {
        Txn::Done(Err(TxErr::BuyerHasName))
    } else if outcomes[1] is Failed {
        Txn::Done(Err(TxErr::Db))
    } else if outcomes[1] != Outcome::Rows(1) {
        Txn::Done(Err(TxErr::OwnerChanged))
    } else if outcomes.len() == 2 {
        Txn::Run(Statement::Record(plan))
    } else if outcomes[2] is Constraint {
        Txn::Done(Err(TxErr::Reused))
    } else if outcomes[2] is Failed {
        Txn::Done(Err(TxErr::Db))
    } else if outcomes.len() == 3 {
        Txn::Run(Statement::Consume { offer_id: plan.offer_id })
    } else if outcomes[3] !is Rows {
        Txn::Done(Err(TxErr::Db))
    } else if outcomes.len() == 4 {
        Txn::Run(Statement::Commit)
    } else if outcomes[4] !is Rows {
        Txn::Done(Err(TxErr::Db))
    } else {
        Txn::Done(Ok(()))
    }
}

/// Where the transaction stands, over character sequences.
pub open spec fn txn_view(t: Txn<String>) -> Txn<Seq<char>> {
    match t {
        Txn::Run(Statement::Begin) => Txn::Run(Statement::Begin),
        Txn::Run(Statement::MoveName { name, seller, buyer, at }) => Txn::Run(
            Statement::MoveName { name: name@, seller: seller@, buyer: buyer@, at },
        ),
        Txn::Run(Statement::Record(p)) => Txn::Run(Statement::Record(plan_view(p))),
        Txn::Run(Statement::Consume { offer_id }) => Txn::Run(
            Statement::Consume { offer_id: offer_id@ },
        ),
        Txn::Run(Statement::Commit) => Txn::Run(Statement::Commit),
        Txn::Done(r) => Txn::Done(r),
    }
}

fn copy_plan(p: &Plan<String>) -> (q: Plan<String>)
    ensures
        plan_view(q) == plan_view(*p),
{
    Plan {
        offer_id: p.offer_id.clone(),
        name: p.name.clone(),
        seller: p.seller.clone(),
        buyer: p.buyer.clone(),
        price: p.price,
        excess: p.excess.clone(),
        kernel_height: p.kernel_height,
        at: p.at,
    }
}

/// The next statement of the transaction that carries a transfer out, or how
/// it ended. Where it ended with an error, it is to be rolled back.
pub fn run_claim_txn(plan: &Plan<String>, outcomes: &Vec<Outcome>) -> (t: Txn<String>)
    ensures
        txn_view(t) == txn(plan_view(*plan), outcomes@),
{
    if outcomes.len() == 0 {
        return Txn::Run(Statement::Begin);
    }
    match outcomes[0] {
        Outcome::Rows(_) => {},
        _ => {
            return Txn::Done(Err(TxErr::Db));
        },
    }
    if outcomes.len() == 1 {
        return Txn::Run(
            Statement::MoveName {
                name: plan.name.clone(),
                seller: plan.seller.clone(),
                buyer: plan.buyer.clone(),
                at: plan.at,
            },
        );
    }
    match outcomes[1] {
        Outcome::Rows(n) => {
            if n != 1 {
                return Txn::Done(Err(TxErr::OwnerChanged));
            }
        },
        Outcome::Constraint => {
            return Txn::Done(Err(TxErr::BuyerHasName));
        },
        Outcome::Failed => {
            return Txn::Done(Err(TxErr::Db));
        },
    }
    if outcomes.len() == 2 {
        return Txn::Run(Statement::Record(copy_plan(plan)));
    }
    match outcomes[2] {
        Outcome::Rows(_) => {},
        Outcome::Constraint => {
            return Txn::Done(Err(TxErr::Reused));
        },
        Outcome::Failed => {
            return Txn::Done(Err(TxErr::Db));
        },
    }
    if outcomes.len() == 3 {
        return Txn::Run(Statement::Consume { offer_id: plan.offer_id.clone() });
    }
    match outcomes[3] {
        Outcome::Rows(_) => {},
        _ => {
            return Txn::Done(Err(TxErr::Db));
        },
    }
    if outcomes.len() == 4 {
        return Txn::Run(Statement::Commit);
    }
    match outcomes[4] {
        Outcome::Rows(_) => Txn::Done(Ok(())),
        _ => Txn::Done(Err(TxErr::Db)),
    }
}

// ---------------------------------------------------------------------------
// Claiming
// ---------------------------------------------------------------------------

/// The answer to a claim that succeeded: the name, the name with its domain,
/// and the buyer's key.
pub open spec fn claimed(name: Seq<char>, domain: Seq<char>, buyer: Seq<char>) -> Body<Seq<char>> {
    Body::Claimed { name, nip05: name + "@"@ + domain, pubkey: buyer }
}

/// The answer to a claim that succeeded.
pub fn claim_success(name: &str, domain: &str, buyer: &str) -> (b: Body<String>)
    ensures
        reply::body_view(b) == claimed(name@, domain@, buyer@),
{
    let mut nip05 = name.to_owned();
    nip05.append("@");
    nip05.append(domain);
    Body::Claimed { name: name.to_owned(), nip05, pubkey: buyer.to_owned() }
}

/// What a claim's body asks for, or why it is refused: the id of the offer, in
/// lower case, and the payment proof.
pub open spec fn claim_body(body: Seq<u8>) -> Result<(Seq<char>, ProofView), Seq<char>> {
    match json::document(body) {
        None => Err("invalid body"@),
        Some(nodes) => match json::text_member(nodes, "offer_id"@) {
            None => Err("invalid body"@),
            Some(id) => if id.len() != 64 || !crypto::all_hex(id) {
                Err("invalid body"@)
            } else {
                match json::member(nodes, "proof"@) {
                    None => Err("invalid body"@),
                    Some(m) => match payproof::proof_of(m) {
                        None => Err("invalid proof"@),
                        Some(p) => Ok((text::lower(id), p)),
                    },
                }
            },
        },
    }
}

/// The word for an offer that died.
pub open spec fn dead_word(row: OfferRow) -> Seq<char> {
    if row.status@ == "revoked"@ {
        "offer_revoked"@
    } else {
        "offer_expired"@
    }
}

/// Whether an offer is dead and not consumed.
pub open spec fn is_dead(row: OfferRow) -> bool {
    row.status@ == "revoked"@ || row.status@ == "expired"@
}

/// Whether the grace after a dead offer's death is over, or the height of its
/// death was never recorded, so that no claim can be honored.
pub open spec fn beyond_grace(cfg: ConfigView, row: OfferRow, now: i64) -> bool {
    ||| row.end_height is None
    ||| match row.state_changed_at {
        Some(changed) => now - changed > cfg.transfer_claim_grace,
        None => 0 > cfg.transfer_claim_grace,
    }
}

/// The height of the kernel's block as it is stored.
pub open spec fn stored_height(kernel: KernelResult) -> Option<i64> {
    stored_tip(kernel.height)
}

/// Whether a payment at this height came too late for a dead offer.
pub open spec fn too_late(row: OfferRow, height: Option<i64>) -> bool {
    is_dead(row) && !(row.end_height matches Some(end) && height matches Some(h) && h <= end)
}

/// The transfer that a claim carries out.
pub open spec fn planned(row: OfferRow, p: ProofView, kernel: KernelResult, now: i64) -> Plan<
    Seq<char>,
> {
    Plan {
        offer_id: row.offer_id@,
        name: row.name@,
        seller: row.seller_pubkey@,
        buyer: row.buyer_pubkey@,
        price: row.price_nanogrin,
        excess: p.excess_hex,
        kernel_height: stored_height(kernel),
        at: now,
    }
}

/// What the buyer is answered whose offer stands as `row`, with `signed` saying
/// whether both signatures of the proof hold.
pub open spec fn claim_row(
    cfg: ConfigView,
    auth_pubkey: Seq<char>,
    offer_id: Seq<char>,
    row: OfferRow,
    p: ProofView,
    signed: bool,
    now: i64,
    seen: Seen,
) -> Step<Seq<char>> {
    if row.status@ == "consumed"@ {
        claim_again(cfg, offer_id, p, seen)
    } else if is_dead(row) && beyond_grace(cfg, row, now) {
        refused(410, dead_word(row))
    } else if auth_pubkey != row.buyer_pubkey@ {
        refused(401, "not the buyer"@)
    } else {
        match seen.owner {
            None => Step::Ask(Ask::Owner { name: row.name@ }),
            Some(owner) => if text::opt_view(owner) != Some(row.seller_pubkey@) {
                refused(409, "owner_changed"@)
            } else if !signed {
                refused(400, "invalid proof"@)
            } else if address::normal_address(p.recipient_address) != row.proof_address@ {
                refused(409, "proof_address_mismatch"@)
            } else if p.amount != row.price_nanogrin {
                refused(409, "proof_amount_mismatch"@)
            } else {
                claim_paid(cfg, row, p, now, seen)
            },
        }
    }
}

/// What a claim of a consumed offer is answered: the same success again, where
/// the same payment consumed it.
pub open spec fn claim_again(
    cfg: ConfigView,
    offer_id: Seq<char>,
    p: ProofView,
    seen: Seen,
) -> Step<Seq<char>> {
    match seen.transfer {
        None => Step::Ask(Ask::Transfer { offer_id }),
        Some(Some(t)) => if t.kernel_excess@ == p.excess_hex {
            Step::Reply(
                Reply { status: 200, body: claimed(t.name@, cfg.domain, t.buyer_pubkey@) },
            )
        } else {
            refused(409, "offer_consumed"@)
        },
        Some(None) => refused(409, "offer_consumed"@),
    }
}

/// What a claim is answered whose proof fits the offer: the payment must be on
/// chain, deep enough and early enough, its kernel never used before, and the
/// buyer without a name. Then the transfer is carried out.
pub open spec fn claim_paid(
    cfg: ConfigView,
    row: OfferRow,
    p: ProofView,
    now: i64,
    seen: Seen,
) -> Step<Seq<char>> {
    match seen.kernel {
        None => Step::Ask(Ask::Kernel { excess: p.excess_hex }),
        Some(None) => refused(409, "payment_unconfirmed"@),
        Some(Some(kernel)) => if !kernel.found || kernel.confirmations < cfg.transfer_min_conf {
            refused(409, "payment_unconfirmed"@)
        } else if too_late(row, stored_height(kernel)) {
            refused(410, dead_word(row))
        } else {
            match seen.excess_used {
                None => Step::Ask(Ask::ExcessUsed { excess: p.excess_hex }),
                Some(true) => refused(409, "proof_reused"@),
                Some(false) => match seen.buyer_name {
                    None => Step::Ask(Ask::NameOf { pubkey: row.buyer_pubkey@ }),
                    Some(Some(name)) => Step::Reply(
                        Reply { status: 409, body: Body::HasName(name@) },
                    ),
                    Some(None) => match seen.executed {
                        None => Step::Ask(Ask::Execute(planned(row, p, kernel, now))),
                        Some(Err(TxErr::OwnerChanged)) => refused(409, "owner_changed"@),
                        Some(Err(TxErr::BuyerHasName)) => refused(
                            409,
                            "pubkey already has a name"@,
                        ),
                        Some(Err(TxErr::Reused)) => refused(409, "proof_reused"@),
                        Some(Err(TxErr::Db)) => refused(500, "db error"@),
                        Some(Ok(_)) => if !seen.armed {
                            Step::Ask(
                                Ask::Arm { bucket: "namechange"@, key: row.seller_pubkey@ },
                            )
                        } else {
                            Step::Reply(
                                Reply {
                                    status: 201,
                                    body: claimed(row.name@, cfg.domain, row.buyer_pubkey@),
                                },
                            )
                        },
                    },
                },
            }
        },
    }
}

/// What a claim of the offer `offer_id` with the proof `p` is answered, with
/// `signed` saying whether both signatures of the proof hold.
pub open spec fn claim_offer(
    cfg: ConfigView,
    auth_pubkey: Seq<char>,
    offer_id: Seq<char>,
    p: ProofView,
    signed: bool,
    seen: Seen,
) -> Step<Seq<char>> {
    match seen.offer {
        None => Step::Ask(Ask::Offer { offer_id }),
        Some(None) => refused(404, "not found"@),
        Some(Some(row)) => match seen.now {
            None => Step::Ask(Ask::Now),
            Some(now) => match settle(row, now, seen) {
                Settled::Ask(a) => Step::Ask(a),
                Settled::Row(row) => claim_row(
                    cfg,
                    auth_pubkey,
                    offer_id,
                    row,
                    p,
                    signed,
                    now,
                    seen,
                ),
            },
        },
    }
}

/// What a claim request is answered.
pub open spec fn claim_step(cfg: ConfigView, req: Request, seen: Seen) -> Step<Seq<char>> {
    match entry::signed_entry(
        cfg,
        "transfer"@,
        "POST"@,
        "/api/v1/transfer/claim"@,
        req,
        req.body@,
        seen.entry,
    ) {
        Entry::Ask(a) => Step::Ask(Ask::Entry(a)),
        Entry::Refuse(r) => Step::Reply(r),
        Entry::Pass(key) => match claim_body(req.body@) {
            Err(why) => refused(400, why),
            Ok((offer_id, p)) => claim_offer(
                cfg,
                key,
                offer_id,
                p,
                payproof::both_signed(p),
                seen,
            ),
        },
    }
}

fn hex_only(s: &str, len: usize) -> (b: bool)
    ensures
        b == (s@.len() == len && crypto::all_hex(s@)),
{
    let v = chars_of(s);
    if v.len() != len {
        return false;
    }
    let mut i: usize = 0;
    while i < v.len()
        invariant
            i <= v.len(),
            v@ == s@,
            forall|j: int| 0 <= j < i ==> crypto::is_hex(#[trigger] v@[j]),
        decreases v.len() - i,
    {
        let c = v[i];
        if !(('0' <= c && c <= '9') || ('a' <= c && c <= 'f') || ('A' <= c && c <= 'F')) {
            assert(!crypto::is_hex(s@[i as int]));
            return false;
        }
        i = i + 1;
    }
    true
}

/// Read the body of a claim: the id of the offer and the payment proof, or why
/// it is refused.
pub fn read_claim(body: &[u8]) -> (r: Result<(String, ParsedPaymentProof), String>)
    ensures
        match (r, claim_body(body@)) {
            (Ok((id, p)), Ok((i, v))) => id@ == i && p@ == v,
            (Err(e), Err(f)) => e@ == f,
            _ => false,
        },
{
    let value = match json::read(body) {
        Some(v) => v,
        None => {
            return Err("invalid body".to_owned());
        },
    };
    let id = match get_text(&value, "offer_id") {
        Some(s) => s,
        None => {
            return Err("invalid body".to_owned());
        },
    };
    if !hex_only(id.as_str(), 64) {
        return Err("invalid body".to_owned());
    }
    let proof_value = match get(&value, "proof") {
        Some(v) => v,
        None => {
            return Err("invalid body".to_owned());
        },
    };
    match parse_payment_proof(proof_value) {
        Some(p) => Ok((to_lower(id.as_str()), p)),
        None => Err("invalid proof".to_owned()),
    }
}

/// Whether the grace after a dead offer's death is over, or the height of its
/// death was never recorded.
fn past_grace(cfg: &Config, row: &OfferRow, now: i64) -> (b: bool)
    ensures
        b == beyond_grace(cfg@, *row, now),
{
    if row.end_height.is_none() {
        return true;
    }
    let changed: i64 = match row.state_changed_at {
        Some(t) => t,
        None => now,
    };
    let gone: i128 = now as i128 - changed as i128;
    gone > cfg.transfer_claim_grace as i128
}

fn dead(row: &OfferRow) -> (b: bool)
    ensures
        b == is_dead(*row),
{
    same(row.status.as_str(), "revoked") || same(row.status.as_str(), "expired")
}

fn refuse_dead(row: &OfferRow) -> (step: Step<String>)
    ensures
        step_view(step) == refused(410, dead_word(*row)),
{
    if same(row.status.as_str(), "revoked") {
        refuse_step(410, "offer_revoked")
    } else {
        refuse_step(410, "offer_expired")
    }
}

/// Answer a claim whose proof fits the offer.
fn finish_claim(
    cfg: &Config,
    row: &OfferRow,
    proof: &ParsedPaymentProof,
    now: i64,
    seen: &Seen,
) -> (step: Step<String>)
    ensures
        step_view(step) == claim_paid(cfg@, *row, proof@, now, *seen),
{
    let kernel = match seen.kernel {
        None => {
            return Step::Ask(Ask::Kernel { excess: proof.excess_hex.clone() });
        },
        Some(None) => {
            return refuse_step(409, "payment_unconfirmed");
        },
        Some(Some(k)) => k,
    };
    if !kernel.found || kernel.confirmations < cfg.transfer_min_conf {
        return refuse_step(409, "payment_unconfirmed");
    }
    let kernel_height = store_tip(kernel.height);
    if dead(row) {
        let in_time = match (row.end_height, kernel_height) {
            (Some(end), Some(h)) => h <= end,
            _ => false,
        };
        if !in_time {
            return refuse_dead(row);
        }
    }
    match seen.excess_used {
        None => {
            return Step::Ask(Ask::ExcessUsed { excess: proof.excess_hex.clone() });
        },
        Some(used) => {
            if used {
                return refuse_step(409, "proof_reused");
            }
        },
    }
    match &seen.buyer_name {
        None => {
            return Step::Ask(Ask::NameOf { pubkey: row.buyer_pubkey.clone() });
        },
        Some(Some(name)) => {
            return Step::Reply(Reply { status: 409, body: Body::HasName(name.clone()) });
        },
        Some(None) => {},
    }
    match seen.executed {
        None => Step::Ask(
            Ask::Execute(
                Plan {
                    offer_id: row.offer_id.clone(),
                    name: row.name.clone(),
                    seller: row.seller_pubkey.clone(),
                    buyer: row.buyer_pubkey.clone(),
                    price: row.price_nanogrin,
                    excess: proof.excess_hex.clone(),
                    kernel_height,
                    at: now,
                },
            ),
        ),
        Some(Err(TxErr::OwnerChanged)) => refuse_step(409, "owner_changed"),
        Some(Err(TxErr::BuyerHasName)) => refuse_step(409, "pubkey already has a name"),
        Some(Err(TxErr::Reused)) => refuse_step(409, "proof_reused"),
        Some(Err(TxErr::Db)) => refuse_step(500, "db error"),
        Some(Ok(_)) => {
            if !seen.armed {
                return Step::Ask(
                    Ask::Arm {
                        bucket: "namechange".to_owned(),
                        key: row.seller_pubkey.clone(),
                    },
                );
            }
            Step::Reply(
                Reply {
                    status: 201,
                    body: claim_success(
                        row.name.as_str(),
                        cfg.domain.as_str(),
                        row.buyer_pubkey.as_str(),
                    ),
                },
            )
        },
    }
}

/// Answer a claim of an offer, with `signed` saying whether both signatures of
/// the proof hold. It makes no difference before the owner of the name is
/// known.
pub fn claim_signed(
    cfg: &Config,
    auth_pubkey: &str,
    offer_id: &str,
    proof: &ParsedPaymentProof,
    signed: bool,
    seen: &Seen,
) -> (step: Step<String>)
    ensures
        step_view(step) == claim_offer(cfg@, auth_pubkey@, offer_id@, proof@, signed, *seen),
        seen.owner is None ==> step_view(step) == claim_offer(
            cfg@,
            auth_pubkey@,
            offer_id@,
            proof@,
            !signed,
            *seen,
        ),
{
    let row = match &seen.offer {
        None => {
            return Step::Ask(Ask::Offer { offer_id: offer_id.to_owned() });
        },
        Some(None) => {
            return refuse_step(404, "not found");
        },
        Some(Some(row)) => row,
    };
    let now: i64 = match seen.now {
        None => {
            return Step::Ask(Ask::Now);
        },
        Some(t) => t,
    };
    let row = match settle_expiry(row, now, seen) {
        Err(a) => {
            return Step::Ask(a);
        },
        Ok(row) => row,
    };
    if same(row.status.as_str(), "consumed") {
        return match &seen.transfer {
            None => Step::Ask(Ask::Transfer { offer_id: offer_id.to_owned() }),
            Some(Some(t)) => {
                if same(t.kernel_excess.as_str(), proof.excess_hex.as_str()) {
                    Step::Reply(
                        Reply {
                            status: 200,
                            body: claim_success(
                                t.name.as_str(),
                                cfg.domain.as_str(),
                                t.buyer_pubkey.as_str(),
                            ),
                        },
                    )
                } else {
                    refuse_step(409, "offer_consumed")
                }
            },
            Some(None) => refuse_step(409, "offer_consumed"),
        };
    }
    if dead(row) && past_grace(cfg, row, now) {
        return refuse_dead(row);
    }
    if !same(auth_pubkey, row.buyer_pubkey.as_str()) {
        return refuse_step(401, "not the buyer");
    }
    match &seen.owner {
        None => {
            return Step::Ask(Ask::Owner { name: row.name.clone() });
        },
        Some(owner) => {
            let held = match owner {
                Some(key) => same(key.as_str(), row.seller_pubkey.as_str()),
                None => false,
            };
            if !held {
                return refuse_step(409, "owner_changed");
            }
        },
    }
    if !signed {
        return refuse_step(400, "invalid proof");
    }
    let paid_to = normalize_grin_address(proof.recipient_address.as_str());
    if !same(paid_to.as_str(), row.proof_address.as_str()) {
        return refuse_step(409, "proof_address_mismatch");
    }
    if row.price_nanogrin < 0 || proof.amount != row.price_nanogrin as u64 {
        return refuse_step(409, "proof_amount_mismatch");
    }
    finish_claim(cfg, row, proof, now, seen)
}

/// POST /api/v1/transfer/claim: the buyer claims the name with a Grin payment
/// proof.
pub fn claim(cfg: &Config, req: &Request, seen: &Seen) -> (step: Step<String>)
    ensures
        step_view(step) == claim_step(cfg@, *req, *seen),
{
    let key = match pass_signed(
        cfg,
        "transfer",
        "POST",
        "/api/v1/transfer/claim",
        req,
        req.body.as_slice(),
        &seen.entry,
    ) {
        Entry::Ask(a) => {
            return Step::Ask(Ask::Entry(a));
        },
        Entry::Refuse(r) => {
            return Step::Reply(r);
        },
        Entry::Pass(key) => key,
    };
    let (offer_id, proof) = match read_claim(req.body.as_slice()) {
        Ok(c) => c,
        Err(why) => {
            return refuse_step(400, why.as_str());
        },
    };
    let signed = if seen.owner.is_some() {
        verify_signatures(&proof)
    } else {
        false
    };
    claim_signed(cfg, key.as_str(), offer_id.as_str(), &proof, signed, seen)
}

// ---------------------------------------------------------------------------
// Laws
// ---------------------------------------------------------------------------

/// Whether what is asked for is still unknown or undone.
pub open spec fn unknown(a: Ask<Seq<char>>, seen: Seen) -> bool {
    match a {
        Ask::Entry(g) => entry::entry_unknown(g, seen.entry),
        Ask::Offer { .. } => seen.offer is None,
        Ask::Now => seen.now is None,
        Ask::Tip => seen.tip is None,
        Ask::MarkDead { .. } => !seen.marked,
        Ask::MarkRevoked { .. } => !seen.marked,
        Ask::Reread { .. } => seen.reread is None,
        Ask::Transfer { .. } => seen.transfer is None,
        Ask::Owner { .. } => seen.owner is None,
        Ask::LiveForName { .. } => seen.live_for_name is None,
        Ask::LiveForAddress { .. } => seen.live_for_address is None,
        Ask::Insert(_) => seen.inserted is None,
        Ask::Kernel { .. } => seen.kernel is None,
        Ask::ExcessUsed { .. } => seen.excess_used is None,
        Ask::NameOf { .. } => seen.buyer_name is None,
        Ask::Execute(_) => seen.executed is None,
        Ask::Arm { .. } => !seen.armed,
    }
}

/// No handler asks for what it already knows, or has anything done twice. So a
/// request is answered after at most one round for each field of [`Seen`].
pub proof fn nothing_is_asked_twice(
    cfg: ConfigView,
    offer_id: Seq<char>,
    req: Request,
    seen: Seen,
)
    ensures
        lodge(cfg, req, seen) matches Step::Ask(a) ==> unknown(a, seen),
        read(offer_id, req, seen) matches Step::Ask(a) ==> unknown(a, seen),
        revoke(cfg, offer_id, req, seen) matches Step::Ask(a) ==> unknown(a, seen),
        claim_step(cfg, req, seen) matches Step::Ask(a) ==> unknown(a, seen),
{
}

/// The offer of a request as it stands, once its expiry has been settled.
pub open spec fn standing(seen: Seen) -> Option<OfferRow> {
    match (seen.offer, seen.now) {
        (Some(Some(row)), Some(now)) => match settle(row, now, seen) {
            Settled::Row(row) => Some(row),
            Settled::Ask(_) => None,
        },
        _ => None,
    }
}

/// Whether a sale holds: the offer is not consumed and, where it is dead, the
/// claim and the payment came in time; the claim is signed by the buyer; the
/// seller still holds the name; both parties signed the proof, which pays the
/// exact price to the offer's address; the payment is confirmed; its kernel
/// bought nothing before; and the buyer holds no name.
pub open spec fn sale_holds(
    cfg: ConfigView,
    key: Seq<char>,
    p: ProofView,
    row: OfferRow,
    now: i64,
    seen: Seen,
) -> bool {
    &&& row.status@ != "consumed"@
    &&& is_dead(row) ==> !beyond_grace(cfg, row, now)
    &&& key == row.buyer_pubkey@
    &&& seen.owner matches Some(Some(owner)) && owner@ == row.seller_pubkey@
    &&& payproof::both_signed(p)
    &&& address::normal_address(p.recipient_address) == row.proof_address@
    &&& p.amount == row.price_nanogrin
    &&& seen.kernel matches Some(Some(kernel)) && kernel.found && kernel.confirmations
        >= cfg.transfer_min_conf && !too_late(row, stored_height(kernel))
    &&& seen.excess_used == Some(false)
    &&& seen.buyer_name == Some(None::<String>)
}

/// A claim carries a transfer out only where the sale holds, and answers 201
/// only once it has been carried out and the seller's cooldown started. What
/// is carried out moves the offer's own name, from its seller to its buyer, at
/// its price, for the kernel of the proof.
pub proof fn claim_needs_a_sale(cfg: ConfigView, req: Request, seen: Seen)
    ensures
        ({
            let step = claim_step(cfg, req, seen);
            let executes = step matches Step::Ask(Ask::Execute(_));
            let created = step matches Step::Reply(r) && r.status == 201;
            executes || created ==> {
                &&& entry::signed_entry(
                    cfg,
                    "transfer"@,
                    "POST"@,
                    "/api/v1/transfer/claim"@,
                    req,
                    req.body@,
                    seen.entry,
                ) matches Entry::Pass(key)
                &&& claim_body(req.body@) matches Ok((offer_id, p))
                &&& standing(seen) matches Some(row)
                &&& seen.now matches Some(now)
                &&& sale_holds(cfg, key, p, row, now, seen)
                &&& executes ==> step == Step::Ask(
                    Ask::Execute(planned(row, p, seen.kernel->0->0, now)),
                )
                &&& created ==> (seen.executed matches Some(Ok(_))) && seen.armed && step
                    == Step::Reply(
                    Reply {
                        status: 201,
                        body: claimed(row.name@, cfg.domain, row.buyer_pubkey@),
                    },
                )
            }
        }),
{
}

/// Where the sale holds and nothing stands in its way, the claim goes through.
pub proof fn sale_is_carried_out(cfg: ConfigView, req: Request, seen: Seen)
    requires
        entry::signed_entry(
            cfg,
            "transfer"@,
            "POST"@,
            "/api/v1/transfer/claim"@,
            req,
            req.body@,
            seen.entry,
        ) is Pass,
        claim_body(req.body@) is Ok,
        standing(seen) is Some,
        sale_holds(
            cfg,
            entry::signed_entry(
                cfg,
                "transfer"@,
                "POST"@,
                "/api/v1/transfer/claim"@,
                req,
                req.body@,
                seen.entry,
            )->Pass_0,
            claim_body(req.body@)->Ok_0.1,
            standing(seen)->0,
            seen.now->0,
            seen,
        ),
        seen.executed is None,
    ensures
        claim_step(cfg, req, seen) == Step::Ask(
            Ask::Execute(
                planned(
                    standing(seen)->0,
                    claim_body(req.body@)->Ok_0.1,
                    seen.kernel->0->0,
                    seen.now->0,
                ),
            ),
        ),
{
}

/// A dead offer without a recorded height of its death buys nothing, whatever
/// else holds.
pub proof fn late_claims_fail_closed(cfg: ConfigView, req: Request, seen: Seen)
    requires
        standing(seen) matches Some(row) && is_dead(row) && row.end_height is None,
    ensures
        !(claim_step(cfg, req, seen) matches Step::Ask(Ask::Execute(_))),
        !(claim_step(cfg, req, seen) matches Step::Reply(r) && r.status == 201),
{
    claim_needs_a_sale(cfg, req, seen);
}

/// A retry of a claim that went through is answered the same body: `first` is
/// what was known when the claim answered 201, and `retry` finds the offer
/// consumed and the transfer recorded as it was carried out.
pub proof fn claim_is_idempotent(
    cfg: ConfigView,
    key: Seq<char>,
    offer_id: Seq<char>,
    p: ProofView,
    signed: bool,
    first: Seen,
    retry: Seen,
)
    requires
        claim_offer(cfg, key, offer_id, p, signed, first) matches Step::Reply(r) && r.status == 201,
        standing(retry) matches Some(row) && row.status@ == "consumed"@,
        retry.transfer matches Some(Some(t)) && {
            let plan = planned(standing(first)->0, p, first.kernel->0->0, first.now->0);
            t.kernel_excess@ == plan.excess && t.name@ == plan.name && t.buyer_pubkey@ == plan.buyer
        },
    ensures
        claim_offer(cfg, key, offer_id, p, signed, retry) == Step::Reply(
            Reply {
                status: 200,
                body: claim_offer(cfg, key, offer_id, p, signed, first)->Reply_0.body,
            },
        ),
{
}

/// Transfers have nothing to do with the paywall: every answer stays the same
/// whatever is sold, at whatever price and through whatever payment server.
pub proof fn transfers_ignore_the_paywall(
    a: ConfigView,
    b: ConfigView,
    offer_id: Seq<char>,
    req: Request,
    seen: Seen,
)
    requires
        b == (ConfigView {
            pay_mode: b.pay_mode,
            name_price_nanogrin: b.name_price_nanogrin,
            write_price_nanogrin: b.write_price_nanogrin,
            goblinpay_url: b.goblinpay_url,
            goblinpay_token: b.goblinpay_token,
            goblinpay_webhook_secret: b.goblinpay_webhook_secret,
            paid_poll_interval: b.paid_poll_interval,
            ..a
        }),
    ensures
        lodge(a, req, seen) == lodge(b, req, seen),
        revoke(a, offer_id, req, seen) == revoke(b, offer_id, req, seen),
        claim_step(a, req, seen) == claim_step(b, req, seen),
{
    assert forall|tags: OfferTags<Seq<char>>| #[trigger] terms_of(a, tags) == terms_of(b, tags) by {}
    assert forall|e: event::EventView, terms: Terms<Seq<char>>| #[trigger]
        lodge_terms(a, e, terms, seen) == lodge_terms(b, e, terms, seen) by {}
}

/// What a stored offer is known to be: signed by its seller, who signed the
/// request and holds the name; for a name of this domain and a buyer's key; to
/// end in the future and not too far off; and alone, live, for its name and
/// for its address.
pub proof fn lodged_offers_are_sound(cfg: ConfigView, req: Request, seen: Seen)
    ensures
        lodge(cfg, req, seen) matches Step::Ask(Ask::Insert(o)) ==> {
            &&& entry::signed_entry(
                cfg,
                "transfer"@,
                "POST"@,
                "/api/v1/transfer/offer"@,
                req,
                req.body@,
                seen.entry,
            ) == Entry::Pass(o.seller)
            &&& offered_json(req.body@) matches Some(bytes)
            &&& event::event_signed(bytes)
            &&& event::event_of(bytes) matches Some(e)
            &&& e.pubkey == o.seller && e.id == o.offer_id && e.json == o.event_json && e.kind
                == OFFER_KIND
            &&& names::is_name(o.name, cfg.name_min as int, cfg.name_max as int)
            &&& names::is_pubkey_hex(o.buyer)
            &&& address::address_key(o.proof_address) is Some
            &&& seen.now == Some(o.created_at)
            &&& o.created_at < o.expiration <= o.created_at + cfg.transfer_max_offer_ttl
            &&& seen.owner matches Some(Some(owner)) && owner@ == o.seller
            &&& seen.live_for_name == Some(false)
            &&& seen.live_for_address == Some(false)
        },
{
}

/// A price that SQLite stores as it is can be paid exactly; one that it cannot
/// is stored as a negative number, which is the amount of no payment.
pub proof fn stored_prices_are_exact(
    e: event::EventView,
    terms: Terms<Seq<char>>,
    now: i64,
    amount: u64,
)
    ensures
        terms.price <= i64::MAX ==> lodged(e, terms, now).price == terms.price,
        terms.price > i64::MAX ==> lodged(e, terms, now).price != amount,
{
}

/// Only the seller revokes, nobody revokes what is consumed, and revoking once
/// more changes nothing: it asks for nothing and is answered the same.
pub proof fn revoking_is_idempotent(
    offer_id: Seq<char>,
    key: Seq<char>,
    row: OfferRow,
    seen: Seen,
)
    ensures
        row.status@ == "revoked"@ && key == row.seller_pubkey@ ==> revoke_row(
            offer_id,
            key,
            row,
            seen,
        ) == revoked(offer_id),
        key != row.seller_pubkey@ ==> revoke_row(offer_id, key, row, seen) == refused(
            403,
            "not the owner"@,
        ),
        key == row.seller_pubkey@ && row.status@ == "consumed"@ ==> revoke_row(
            offer_id,
            key,
            row,
            seen,
        ) == refused(409, "offer_consumed"@),
        revoke_row(offer_id, key, row, seen) matches Step::Ask(a) ==> (a is MarkDead ==> row.status@
            == "live"@) && (a is MarkRevoked ==> row.status@ != "live"@ && row.status@
            != "consumed"@),
{
    reveal_strlit("live");
    reveal_strlit("consumed");
    reveal_strlit("revoked");
    assert("revoked"@.len() == 7 && "consumed"@.len() == 8 && "live"@.len() == 4);
}

/// An offer dies of expiry only where it is live and has ended, and then only
/// becomes `expired`.
pub proof fn only_ended_offers_expire(row: OfferRow, now: i64, seen: Seen)
    ensures
        settle(row, now, seen) matches Settled::Ask(a) ==> row.status@ == "live"@ && row.expiration
            < now,
        settle(row, now, seen) matches Settled::Ask(
            Ask::MarkDead { offer_id, status, end_height, at },
        ) ==> offer_id == row.offer_id@ && status == "expired"@ && at == now && seen.tip == Some(
            seen.tip->0,
        ) && end_height == stored_tip(seen.tip->0),
{
}

/// The transaction succeeds only where all of its statements did and the name
/// moved in exactly one row; once a statement has failed, none follows.
pub proof fn transaction_is_all_or_nothing(plan: Plan<Seq<char>>, outcomes: Seq<Outcome>)
    ensures
        txn(plan, outcomes) == Txn::<Seq<char>>::Done(Ok(())) <==> outcomes.len() >= 5
            && outcomes[0] is Rows && outcomes[1] == Outcome::Rows(1) && outcomes[2] is Rows
            && outcomes[3] is Rows && outcomes[4] is Rows,
        txn(plan, outcomes) is Run ==> outcomes.len() < 5 && forall|i: int|
            0 <= i < outcomes.len() ==> #[trigger] outcomes[i] is Rows,
        (exists|i: int| 0 <= i < outcomes.len() && i < 5 && #[trigger] outcomes[i] !is Rows) ==> txn(
            plan,
            outcomes,
        ) matches Txn::Done(Err(_)),
{
}

/// The words for the state of an offer are four.
proof fn states_differ()
    ensures
        "live"@ != "consumed"@,
        "live"@ != "revoked"@,
        "live"@ != "expired"@,
        "consumed"@ != "revoked"@,
        "consumed"@ != "expired"@,
        "revoked"@ != "expired"@,
{
    reveal_strlit("live");
    reveal_strlit("consumed");
    reveal_strlit("revoked");
    reveal_strlit("expired");
    assert("live"@.len() == 4 && "consumed"@.len() == 8 && "revoked"@.len() == 7
        && "expired"@.len() == 7);
    assert("revoked"@[0] == 'r' && "expired"@[0] == 'e');
}

/// A tag of an offer is found by its name: the last one of that name decides,
/// whatever stands before it, and without a value it is none.
pub proof fn last_tags_count(
    before: Seq<Seq<Seq<char>>>,
    tag: Seq<Seq<char>>,
    after: Seq<Seq<Seq<char>>>,
    key: Seq<char>,
)
    requires
        tag.len() >= 1,
        tag[0] == key,
        forall|i: int| 0 <= i < after.len() ==> (#[trigger] after[i]).len() == 0 || after[i][0] != key,
    ensures
        last_tag(before + seq![tag] + after, key) == if tag.len() >= 2 {
            Some(tag[1])
        } else {
            None
        },
        last_tag(after, key) is None,
    decreases after.len(),
{
    let all = before + seq![tag] + after;
    if after.len() == 0 {
        assert(all.last() == tag);
    } else {
        let rest = after.drop_last();
        assert(all.last() == after.last());
        assert(after.last() == after[after.len() - 1]);
        assert(all.drop_last() =~= before + seq![tag] + rest);
        last_tags_count(before, tag, rest, key);
    }
}

/// A stored offer says what the seller signed: every term is the value of the
/// last tag of that name in the seller's own event. The price is the number that
/// the decimal text of its tag stands for, in nanogrin; the buyer's key and the
/// address are in lower case; the end is the number of seconds of its tag.
pub proof fn stored_offers_say_what_was_signed(cfg: ConfigView, req: Request, seen: Seen)
    ensures
        lodge(cfg, req, seen) matches Step::Ask(Ask::Insert(o)) ==> {
            &&& json::document(req.body@) matches Some(nodes)
            &&& nodes.contains_key(seq![json::Step::Key("offer"@)])
            &&& event::event_of(encode_utf8(nodes[seq![json::Step::Key("offer"@)]].written)) matches Some(
                e,
            )
            &&& event::event_signed(encode_utf8(nodes[seq![json::Step::Key("offer"@)]].written))
            &&& e.kind == 3402
            &&& o.offer_id == e.id
            &&& o.event_json == e.json
            &&& o.seller == e.pubkey
            &&& last_tag(e.tags, "name"@) == Some(o.name)
            &&& last_tag(e.tags, "domain"@) == Some(cfg.domain)
            &&& last_tag(e.tags, "p"@) matches Some(buyer)
            &&& o.buyer == text::lower(buyer)
            &&& last_tag(e.tags, "price"@) matches Some(price)
            &&& digits::unsigned_value(text::trimmed(price), 0xffff_ffff_ffff_ffff) matches Some(n)
            &&& n <= 0x7fff_ffff_ffff_ffff ==> o.price == n
            &&& n > 0x7fff_ffff_ffff_ffff ==> o.price == n - 0x1_0000_0000_0000_0000
            &&& last_tag(e.tags, "proof_address"@) matches Some(paid_to)
            &&& o.proof_address == text::lower(text::trimmed(paid_to))
            &&& last_tag(e.tags, "expiration"@) matches Some(end)
            &&& digits::signed_value(text::trimmed(end)) == Some(o.expiration as int)
            &&& seen.now == Some(o.created_at)
        },
{
    let e = Seq::<json::Step>::empty();
    let offer = json::Step::Key("offer"@);
    assert(seq![offer] + e =~= seq![offer]);
}

/// A decimal price is stored as that number of nanogrin.
pub proof fn prices_are_stored_as_written(
    cfg: ConfigView,
    auth_pubkey: Seq<char>,
    e: event::EventView,
    seen: Seen,
    n: u64,
)
    requires
        last_tag(e.tags, "price"@) == Some(digits::decimal(n as nat)),
        n <= 0x7fff_ffff_ffff_ffff,
    ensures
        lodge_event(cfg, auth_pubkey, e, seen) matches Step::Ask(Ask::Insert(o)) ==> o.price == n,
{
    let d = digits::decimal(n as nat);
    digits::written_numbers_read_back(n as nat, u64::MAX as nat);
    digits::decimal_round_trip(n as nat);
    assert forall|i: int| 0 <= i < d.len() implies !text::is_space(#[trigger] d[i]) by {
        assert(digits::is_digit(d[i]));
    }
    crate::amount::no_space_trimmed(d);
}

/// An offer is taken where the seller's event is signed, of the kind for offers
/// and by the key that signed the request; its last tags name a name that can
/// be, this authority's domain, a buyer's key, a price, a Grin address and an
/// end; the end is ahead and at most the longest time to live away; the seller
/// holds the name; and no live offer has the name or the address. What is not
/// known of that is asked for in this order, and what does not hold is refused.
pub proof fn good_offers_are_stored(
    cfg: ConfigView,
    req: Request,
    seen: Seen,
    nodes: json::Nodes,
    e: event::EventView,
    name: Seq<char>,
    buyer: Seq<char>,
    price: Seq<char>,
    n: nat,
    paid_to: Seq<char>,
    end: Seq<char>,
    expiration: int,
)
    requires
        entry::signed_entry(
            cfg,
            "transfer"@,
            "POST"@,
            "/api/v1/transfer/offer"@,
            req,
            req.body@,
            seen.entry,
        ) == Entry::Pass(e.pubkey),
        json::document(req.body@) == Some(nodes),
        nodes.contains_key(seq![json::Step::Key("offer"@)]),
        event::event_of(encode_utf8(nodes[seq![json::Step::Key("offer"@)]].written)) == Some(e),
        event::event_signed(encode_utf8(nodes[seq![json::Step::Key("offer"@)]].written)),
        e.kind == 3402,
        last_tag(e.tags, "name"@) == Some(name),
        names::is_name(name, cfg.name_min as int, cfg.name_max as int),
        last_tag(e.tags, "domain"@) == Some(cfg.domain),
        last_tag(e.tags, "p"@) == Some(buyer),
        names::is_pubkey_hex(text::lower(buyer)),
        last_tag(e.tags, "price"@) == Some(price),
        digits::unsigned_value(text::trimmed(price), 0xffff_ffff_ffff_ffff) == Some(n),
        last_tag(e.tags, "proof_address"@) == Some(paid_to),
        address::address_key(text::lower(text::trimmed(paid_to))) is Some,
        last_tag(e.tags, "expiration"@) == Some(end),
        digits::signed_value(text::trimmed(end)) == Some(expiration),
    ensures
        ({
            let step = lodge(cfg, req, seen);
            let to = text::lower(text::trimmed(paid_to));
            let owned = seen.owner matches Some(Some(owner)) && owner@ == e.pubkey;
            match seen.now {
                None => step == Step::Ask(Ask::<Seq<char>>::Now),
                Some(now) => {
                    let ahead = now < expiration <= now + cfg.transfer_max_offer_ttl;
                    &&& !ahead ==> step == Step::Reply(
                        Reply { status: 400, body: Body::Error("invalid offer"@) },
                    )
                    &&& ahead && seen.owner is None ==> step == Step::Ask(Ask::Owner { name })
                    &&& ahead && seen.owner is Some && !owned ==> step == Step::Reply(
                        Reply { status: 403, body: Body::Error("not the owner"@) },
                    )
                    &&& ahead && owned ==> match (seen.live_for_name, seen.live_for_address) {
                        (None, _) => step == Step::Ask(Ask::LiveForName { name, now }),
                        (Some(true), _) => step == Step::Reply(
                            Reply { status: 409, body: Body::Error("offer_exists"@) },
                        ),
                        (Some(false), None) => step == Step::Ask(
                            Ask::LiveForAddress { address: to, now },
                        ),
                        (Some(false), Some(true)) => step == Step::Reply(
                            Reply { status: 409, body: Body::Error("offer_ambiguous"@) },
                        ),
                        (Some(false), Some(false)) => match seen.inserted {
                            None => step matches Step::Ask(Ask::Insert(o)) && {
                                &&& o.offer_id == e.id && o.event_json == e.json
                                &&& o.name == name && o.seller == e.pubkey
                                &&& o.buyer == text::lower(buyer)
                                &&& n <= 0x7fff_ffff_ffff_ffff ==> o.price == n
                                &&& n > 0x7fff_ffff_ffff_ffff ==> o.price == n
                                    - 0x1_0000_0000_0000_0000
                                &&& o.proof_address == to && o.expiration == expiration
                                &&& o.created_at == now
                            },
                            Some(Inserted::Stored) => step matches Step::Reply(r) && r.status == 201
                                && (r.body matches Body::Lodged { offer_id, name: m, expires_at }
                                && offer_id == e.id && m == name && expires_at == expiration),
                            Some(Inserted::Exists) => step == Step::Reply(
                                Reply { status: 409, body: Body::Error("offer_exists"@) },
                            ),
                            Some(Inserted::Failed) => step == Step::Reply(
                                Reply { status: 500, body: Body::Error("db error"@) },
                            ),
                        },
                    }
                },
            }
        }),
{
    let none = Seq::<json::Step>::empty();
    let offer = json::Step::Key("offer"@);
    assert(seq![offer] + none =~= seq![offer]);
    assert(i64::MIN <= expiration <= i64::MAX);
}

/// Whether a claim of the offer comes in time: it is live and has not ended, or
/// it is dead, the height and the time of its death are known, and no more than
/// the grace has passed since.
pub open spec fn comes_in_time(cfg: ConfigView, row: OfferRow, now: i64) -> bool {
    ||| row.status@ == "live"@ && now <= row.expiration
    ||| (row.status@ == "revoked"@ || row.status@ == "expired"@) && row.end_height is Some && (
    row.state_changed_at matches Some(died) && now - died <= cfg.transfer_claim_grace)
}

/// A claim is late by the numbers: of an offer that died, revoked or expired
/// alike, with the height and the time of its death on record, it is refused for
/// coming late exactly where more than the grace has passed since that time; else
/// it is refused as late only where the payment itself is not on record at or
/// below the height of the death. Without a height on record it always is.
pub proof fn claims_are_late_by_the_numbers(
    cfg: ConfigView,
    key: Seq<char>,
    offer_id: Seq<char>,
    p: ProofView,
    signed: bool,
    seen: Seen,
    row: OfferRow,
    now: i64,
)
    requires
        seen.offer == Some(Some(row)),
        seen.now == Some(now),
        row.status@ == "revoked"@ || row.status@ == "expired"@,
    ensures
        ({
            let step = claim_offer(cfg, key, offer_id, p, signed, seen);
            let late = Step::Reply(
                Reply {
                    status: 410,
                    body: Body::Error(
                        if row.status@ == "revoked"@ {
                            "offer_revoked"@
                        } else {
                            "offer_expired"@
                        },
                    ),
                },
            );
            &&& row.end_height is None ==> step == late
            &&& row.end_height is Some && row.state_changed_at is None && cfg.transfer_claim_grace
                >= 0 && seen.kernel is None ==> step != late
            &&& (row.end_height matches Some(end) && row.state_changed_at matches Some(died)) ==> {
                let end = row.end_height->0;
                let died = row.state_changed_at->0;
                &&& now - died > cfg.transfer_claim_grace ==> step == late
                &&& now - died <= cfg.transfer_claim_grace ==> (step matches Step::Reply(r) && r.status
                    == 410 ==> step == late && (seen.kernel matches Some(Some(k)) && !(k.height
                    matches Some(h) && h <= 0x7fff_ffff_ffff_ffff && h <= end)))
            }
        }),
{
    states_differ();
}

/// A claim that is good goes through: it comes in time, it is signed by the
/// buyer, the seller still holds the name, both parties signed the proof, which
/// pays exactly the price to the offer's address, and the payment is deep enough
/// and, where the offer is dead, not above the height of its death; its kernel
/// bought nothing before and the buyer holds no name. Then the offer's name goes
/// from its seller to its buyer, in exchange for that kernel; once that is done
/// and the seller's cooldown started, it is answered 201.
pub proof fn good_claims_go_through(
    cfg: ConfigView,
    offer_id: Seq<char>,
    p: ProofView,
    seen: Seen,
    row: OfferRow,
    now: i64,
    owner: String,
    kernel: KernelResult,
)
    requires
        seen.offer == Some(Some(row)),
        seen.now == Some(now),
        comes_in_time(cfg, row, now),
        seen.owner == Some(Some(owner)),
        owner@ == row.seller_pubkey@,
        text::lower(text::trimmed(p.recipient_address)) == row.proof_address@,
        p.amount == row.price_nanogrin,
        seen.kernel == Some(Some(kernel)),
        kernel.found,
        kernel.confirmations >= cfg.transfer_min_conf,
        kernel.height matches Some(h) ==> h <= 0x7fff_ffff_ffff_ffff,
        row.status@ != "live"@ ==> (kernel.height matches Some(h) && h <= row.end_height->0),
        seen.excess_used == Some(false),
        seen.buyer_name == Some(None::<String>),
    ensures
        ({
            let step = claim_offer(cfg, row.buyer_pubkey@, offer_id, p, true, seen);
            match seen.executed {
                None => step matches Step::Ask(Ask::Execute(plan)) && {
                    &&& plan.offer_id == row.offer_id@
                    &&& plan.name == row.name@
                    &&& plan.seller == row.seller_pubkey@
                    &&& plan.buyer == row.buyer_pubkey@
                    &&& plan.price == row.price_nanogrin
                    &&& plan.excess == p.excess_hex
                    &&& match (plan.kernel_height, kernel.height) {
                        (Some(at), Some(h)) => at == h,
                        (None, None) => true,
                        _ => false,
                    }
                    &&& plan.at == now
                },
                Some(Ok(_)) => {
                    &&& !seen.armed ==> step == Step::Ask(
                        Ask::Arm { bucket: "namechange"@, key: row.seller_pubkey@ },
                    )
                    &&& seen.armed ==> step == Step::Reply(
                        Reply {
                            status: 201,
                            body: Body::Claimed {
                                name: row.name@,
                                nip05: row.name@ + "@"@ + cfg.domain,
                                pubkey: row.buyer_pubkey@,
                            },
                        },
                    )
                },
                Some(Err(TxErr::OwnerChanged)) => step == Step::Reply(
                    Reply { status: 409, body: Body::Error("owner_changed"@) },
                ),
                Some(Err(TxErr::BuyerHasName)) => step == Step::Reply(
                    Reply { status: 409, body: Body::Error("pubkey already has a name"@) },
                ),
                Some(Err(TxErr::Reused)) => step == Step::Reply(
                    Reply { status: 409, body: Body::Error("proof_reused"@) },
                ),
                Some(Err(TxErr::Db)) => step == Step::Reply(
                    Reply { status: 500, body: Body::Error("db error"@) },
                ),
            }
        }),
{
    states_differ();
}

/// A claim that comes in time is refused for each thing that is wrong with it,
/// in this order: another key than the buyer's; a name that changed hands; a
/// proof that is not valid, pays another address, or pays another amount, less or
/// more; a payment that is not on chain or not deep enough; one above the height
/// of the offer's death; a kernel that bought before; a buyer who holds a name.
pub proof fn wrong_claims_are_refused(
    cfg: ConfigView,
    key: Seq<char>,
    offer_id: Seq<char>,
    p: ProofView,
    signed: bool,
    seen: Seen,
    row: OfferRow,
    now: i64,
)
    requires
        seen.offer == Some(Some(row)),
        seen.now == Some(now),
        comes_in_time(cfg, row, now),
    ensures
        ({
            let step = claim_offer(cfg, key, offer_id, p, signed, seen);
            let held = seen.owner matches Some(Some(owner)) && owner@ == row.seller_pubkey@;
            let paid_to = text::lower(text::trimmed(p.recipient_address)) == row.proof_address@;
            let exact = p.amount == row.price_nanogrin;
            let deep = seen.kernel matches Some(Some(k)) && k.found && k.confirmations
                >= cfg.transfer_min_conf;
            let early = row.status@ == "live"@ || (seen.kernel matches Some(Some(k)) && k.height
                matches Some(h) && db::stored(h) <= row.end_height->0);
            &&& key != row.buyer_pubkey@ ==> step == Step::Reply(
                Reply { status: 401, body: Body::Error("not the buyer"@) },
            )
            &&& key == row.buyer_pubkey@ ==> {
                &&& seen.owner is None ==> step == Step::Ask(Ask::Owner { name: row.name@ })
                &&& seen.owner is Some && !held ==> step == Step::Reply(
                    Reply { status: 409, body: Body::Error("owner_changed"@) },
                )
                &&& held && !signed ==> step == Step::Reply(
                    Reply { status: 400, body: Body::Error("invalid proof"@) },
                )
                &&& held && signed && !paid_to ==> step == Step::Reply(
                    Reply { status: 409, body: Body::Error("proof_address_mismatch"@) },
                )
                &&& held && signed && paid_to && !exact ==> step == Step::Reply(
                    Reply { status: 409, body: Body::Error("proof_amount_mismatch"@) },
                )
                &&& held && signed && paid_to && exact ==> {
                    &&& seen.kernel is None ==> step == Step::Ask(
                        Ask::Kernel { excess: p.excess_hex },
                    )
                    &&& seen.kernel is Some && !deep ==> step == Step::Reply(
                        Reply { status: 409, body: Body::Error("payment_unconfirmed"@) },
                    )
                    &&& deep && !early ==> (step matches Step::Reply(r) && r.status == 410)
                    &&& deep && early ==> {
                        &&& seen.excess_used is None ==> step == Step::Ask(
                            Ask::ExcessUsed { excess: p.excess_hex },
                        )
                        &&& seen.excess_used == Some(true) ==> step == Step::Reply(
                            Reply { status: 409, body: Body::Error("proof_reused"@) },
                        )
                        &&& seen.excess_used == Some(false) ==> {
                            &&& seen.buyer_name is None ==> step == Step::Ask(
                                Ask::NameOf { pubkey: row.buyer_pubkey@ },
                            )
                            &&& seen.buyer_name matches Some(Some(name)) ==> step == Step::Reply(
                                Reply { status: 409, body: Body::HasName(name@) },
                            )
                        }
                    }
                }
            }
        }),
{
    states_differ();
}

/// A claim of an offer that is consumed is answered the same success again where
/// the same kernel consumed it, and refused where another did; an offer that
/// nobody lodged is not found.
pub proof fn consumed_offers_are_claimed_once(
    cfg: ConfigView,
    key: Seq<char>,
    offer_id: Seq<char>,
    p: ProofView,
    signed: bool,
    seen: Seen,
)
    ensures
        ({
            let step = claim_offer(cfg, key, offer_id, p, signed, seen);
            &&& seen.offer is None ==> step == Step::Ask(Ask::Offer { offer_id })
            &&& seen.offer == Some(None::<OfferRow>) ==> step == Step::Reply(
                Reply { status: 404, body: Body::Error("not found"@) },
            )
            &&& seen.offer matches Some(Some(row)) ==> {
                &&& seen.now is None ==> step == Step::Ask(Ask::<Seq<char>>::Now)
                &&& seen.now is Some && row.status@ == "consumed"@ ==> match seen.transfer {
                    None => step == Step::Ask(Ask::Transfer { offer_id }),
                    Some(None) => step == Step::Reply(
                        Reply { status: 409, body: Body::Error("offer_consumed"@) },
                    ),
                    Some(Some(t)) => if t.kernel_excess@ == p.excess_hex {
                        step == Step::Reply(
                            Reply {
                                status: 200,
                                body: Body::Claimed {
                                    name: t.name@,
                                    nip05: t.name@ + "@"@ + cfg.domain,
                                    pubkey: t.buyer_pubkey@,
                                },
                            },
                        )
                    } else {
                        step == Step::Reply(
                            Reply { status: 409, body: Body::Error("offer_consumed"@) },
                        )
                    },
                }
            }
        }),
{
    states_differ();
}

/// A claim names the offer, by 64 hexadecimal digits of either case, and the
/// payment proof; whether it is valid is what both signatures say. Nothing else
/// of the body matters.
pub proof fn claims_are_read_from_the_body(
    cfg: ConfigView,
    req: Request,
    seen: Seen,
    key: Seq<char>,
    nodes: json::Nodes,
)
    requires
        entry::signed_entry(
            cfg,
            "transfer"@,
            "POST"@,
            "/api/v1/transfer/claim"@,
            req,
            req.body@,
            seen.entry,
        ) == Entry::Pass(key),
    ensures
        json::document(req.body@) is None ==> claim_step(cfg, req, seen) == Step::Reply(
            Reply { status: 400, body: Body::Error("invalid body"@) },
        ),
        json::document(req.body@) == Some(nodes) ==> match (
            json::text_member(nodes, "offer_id"@),
            json::member(nodes, "proof"@),
        ) {
            (Some(id), Some(m)) => if id.len() == 64 && crypto::all_hex(id) {
                match payproof::proof_of(m) {
                    Some(p) => claim_step(cfg, req, seen) == claim_offer(
                        cfg,
                        key,
                        text::lower(id),
                        p,
                        payproof::both_signed(p),
                        seen,
                    ),
                    None => claim_step(cfg, req, seen) == Step::Reply(
                        Reply { status: 400, body: Body::Error("invalid proof"@) },
                    ),
                }
            } else {
                claim_step(cfg, req, seen) == Step::Reply(
                    Reply { status: 400, body: Body::Error("invalid body"@) },
                )
            },
            _ => claim_step(cfg, req, seen) == Step::Reply(
                Reply { status: 400, body: Body::Error("invalid body"@) },
            ),
        },
{
}

/// An offer that is live and past its end is made `expired` first, at the height
/// that a node names and at this moment; then it counts as it is read again. Any
/// other offer counts as it is.
pub proof fn ended_offers_expire_first(row: OfferRow, now: i64, seen: Seen)
    ensures
        row.status@ != "live"@ || now <= row.expiration ==> settle(row, now, seen) == Settled::Row(
            row,
        ),
        row.status@ == "live"@ && now > row.expiration ==> match seen.tip {
            None => settle(row, now, seen) == Settled::Ask(Ask::Tip),
            Some(tip) => {
                &&& !seen.marked ==> (settle(row, now, seen) matches Settled::Ask(
                    Ask::MarkDead { offer_id, status, end_height, at },
                ) && {
                    &&& offer_id == row.offer_id@
                    &&& status == "expired"@
                    &&& at == now
                    &&& tip is None ==> end_height is None
                    &&& tip matches Some(h) ==> h <= 0x7fff_ffff_ffff_ffff ==> (end_height
                        matches Some(end) && end == h)
                })
                &&& seen.marked ==> match seen.reread {
                    None => settle(row, now, seen) == Settled::Ask(
                        Ask::Reread { offer_id: row.offer_id@ },
                    ),
                    Some(Some(fresh)) => settle(row, now, seen) == Settled::Row(fresh),
                    Some(None) => settle(row, now, seen) == Settled::Row(row),
                }
            },
        },
{
}

/// A claim of an offer that ended is judged as the offer stands once it has been
/// made `expired`.
pub proof fn ended_offers_are_claimed_as_they_stand(
    cfg: ConfigView,
    key: Seq<char>,
    offer_id: Seq<char>,
    p: ProofView,
    signed: bool,
    seen: Seen,
    row: OfferRow,
    fresh: OfferRow,
    now: i64,
)
    requires
        seen.offer == Some(Some(row)),
        seen.now == Some(now),
        row.status@ == "live"@,
        now > row.expiration,
        seen.tip is Some,
        seen.marked,
        seen.reread == Some(Some(fresh)),
        fresh.status@ != "live"@,
    ensures
        claim_offer(cfg, key, offer_id, p, signed, seen) == claim_offer(
            cfg,
            key,
            offer_id,
            p,
            signed,
            Seen { offer: Some(Some(fresh)), ..seen },
        ),
{
}

/// Anybody within the rate limit reads an offer as it was signed, with the
/// status in which it stands.
pub proof fn offers_are_read_as_they_stand(offer_id: Seq<char>, req: Request, seen: Seen)
    ensures
        ({
            let step = read(offer_id, req, seen);
            &&& seen.entry.allowed is None ==> step == Step::Ask(
                Ask::Entry(
                    EntryAsk::AllowRead {
                        ip: match req.real_ip {
                            Some(ip) => ip@,
                            None => "unknown"@,
                        },
                    },
                ),
            )
            &&& seen.entry.allowed == Some(false) ==> step == Step::Reply(
                Reply { status: 429, body: Body::Error("rate_limited"@) },
            )
            &&& seen.entry.allowed == Some(true) ==> match seen.offer {
                None => step == Step::Ask(Ask::Offer { offer_id }),
                Some(None) => step == Step::Reply(
                    Reply { status: 404, body: Body::Error("not found"@) },
                ),
                Some(Some(row)) => match seen.now {
                    None => step == Step::Ask(Ask::<Seq<char>>::Now),
                    Some(now) => row.status@ != "live"@ || now <= row.expiration ==> step
                        == Step::Reply(
                        Reply {
                            status: 200,
                            body: Body::Offer { event_json: row.event_json@, status: row.status@ },
                        },
                    ),
                },
            }
        }),
{
}

/// The seller alone revokes an offer. A live one dies at once, at the height
/// that a node names and at this moment; an expired one keeps the record of its
/// death; one that is revoked already stays so; and one that is consumed cannot
/// be revoked.
pub proof fn sellers_revoke_their_offers(
    cfg: ConfigView,
    offer_id: Seq<char>,
    req: Request,
    seen: Seen,
    key: Seq<char>,
)
    requires
        entry::signed_entry(
            cfg,
            "transfer"@,
            "DELETE"@,
            "/api/v1/transfer/offer/"@ + offer_id,
            req,
            Seq::empty(),
            seen.entry,
        ) == Entry::Pass(key),
    ensures
        ({
            let step = revoke(cfg, offer_id, req, seen);
            let done = Step::Reply(Reply { status: 200, body: Body::Revoked { offer_id } });
            &&& seen.offer is None ==> step == Step::Ask(Ask::Offer { offer_id })
            &&& seen.offer == Some(None::<OfferRow>) ==> step == Step::Reply(
                Reply { status: 404, body: Body::Error("not found"@) },
            )
            &&& seen.offer matches Some(Some(row)) ==> {
                &&& key != row.seller_pubkey@ ==> step == Step::Reply(
                    Reply { status: 403, body: Body::Error("not the owner"@) },
                )
                &&& key == row.seller_pubkey@ ==> {
                    &&& row.status@ == "consumed"@ ==> step == Step::Reply(
                        Reply { status: 409, body: Body::Error("offer_consumed"@) },
                    )
                    &&& row.status@ == "revoked"@ ==> step == done
                    &&& row.status@ == "expired"@ && !seen.marked ==> step == Step::Ask(
                        Ask::MarkRevoked { offer_id: row.offer_id@ },
                    )
                    &&& row.status@ == "expired"@ && seen.marked ==> step == done
                    &&& row.status@ == "live"@ ==> match (seen.now, seen.tip) {
                        (None, _) => step == Step::Ask(Ask::<Seq<char>>::Now),
                        (Some(_), None) => step == Step::Ask(Ask::<Seq<char>>::Tip),
                        (Some(now), Some(tip)) => {
                            &&& !seen.marked ==> (step matches Step::Ask(
                                Ask::MarkDead { offer_id: id, status, end_height, at },
                            ) && {
                                &&& id == row.offer_id@
                                &&& status == "revoked"@
                                &&& at == now
                                &&& tip is None ==> end_height is None
                                &&& tip matches Some(h) ==> h <= 0x7fff_ffff_ffff_ffff ==> (end_height
                                    matches Some(end) && end == h)
                            })
                            &&& seen.marked ==> step == done
                        },
                    }
                }
            }
        }),
{
    states_differ();
}

/// The transaction runs its statements in order, each with what the plan says:
/// it begins, moves the name from the seller to the buyer, records the transfer,
/// consumes the offer and commits. The first that fails ends it, with the error
/// for what failed.
pub proof fn transactions_follow_the_plan(plan: Plan<Seq<char>>, o: Seq<Outcome>)
    ensures
        o.len() == 0 ==> txn(plan, o) == Txn::Run(Statement::<Seq<char>>::Begin),
        o.len() >= 1 && o[0] !is Rows ==> txn(plan, o) == Txn::<Seq<char>>::Done(Err(TxErr::Db)),
        o.len() == 1 && o[0] is Rows ==> txn(plan, o) == Txn::Run(
            Statement::MoveName {
                name: plan.name,
                seller: plan.seller,
                buyer: plan.buyer,
                at: plan.at,
            },
        ),
        o.len() >= 2 && o[0] is Rows ==> match o[1] {
            Outcome::Constraint => txn(plan, o) == Txn::<Seq<char>>::Done(
                Err(TxErr::BuyerHasName),
            ),
            Outcome::Failed => txn(plan, o) == Txn::<Seq<char>>::Done(Err(TxErr::Db)),
            Outcome::Rows(n) => n != 1 ==> txn(plan, o) == Txn::<Seq<char>>::Done(
                Err(TxErr::OwnerChanged),
            ),
        },
        o.len() == 2 && o[0] is Rows && o[1] == Outcome::Rows(1) ==> txn(plan, o) == Txn::Run(
            Statement::Record(plan),
        ),
        o.len() >= 3 && o[0] is Rows && o[1] == Outcome::Rows(1) ==> match o[2] {
            Outcome::Constraint => txn(plan, o) == Txn::<Seq<char>>::Done(Err(TxErr::Reused)),
            Outcome::Failed => txn(plan, o) == Txn::<Seq<char>>::Done(Err(TxErr::Db)),
            Outcome::Rows(_) => {
                &&& o.len() == 3 ==> txn(plan, o) == Txn::Run(
                    Statement::Consume { offer_id: plan.offer_id },
                )
                &&& o.len() >= 4 && o[3] !is Rows ==> txn(plan, o) == Txn::<Seq<char>>::Done(
                    Err(TxErr::Db),
                )
                &&& o.len() == 4 && o[3] is Rows ==> txn(plan, o) == Txn::Run(
                    Statement::<Seq<char>>::Commit,
                )
                &&& o.len() >= 5 && o[3] is Rows && o[4] !is Rows ==> txn(plan, o) == Txn::<
                    Seq<char>,
                >::Done(Err(TxErr::Db))
            },
        },
{
}

/// Offers, plans and statements are seen with the fields that they have.
pub proof fn transfer_views_show_the_fields(
    o: NewOffer<String>,
    p: Plan<String>,
    t: OfferTags<String>,
    terms: Terms<String>,
    a: String,
    b: String,
    c: String,
    n: i64,
    end: Option<i64>,
    r: Reply<String>,
)
    ensures
        new_offer_view(o).offer_id == o.offer_id@ && new_offer_view(o).event_json == o.event_json@,
        new_offer_view(o).name == o.name@ && new_offer_view(o).seller == o.seller@,
        new_offer_view(o).buyer == o.buyer@ && new_offer_view(o).price == o.price,
        new_offer_view(o).proof_address == o.proof_address@,
        new_offer_view(o).expiration == o.expiration && new_offer_view(o).created_at == o.created_at,
        plan_view(p).offer_id == p.offer_id@ && plan_view(p).name == p.name@,
        plan_view(p).seller == p.seller@ && plan_view(p).buyer == p.buyer@,
        plan_view(p).price == p.price && plan_view(p).excess == p.excess@,
        plan_view(p).kernel_height == p.kernel_height && plan_view(p).at == p.at,
        offer_tags_view(t).name == t.name@ && offer_tags_view(t).domain == t.domain@,
        offer_tags_view(t).buyer == t.buyer@ && offer_tags_view(t).price == t.price@,
        offer_tags_view(t).proof_address == t.proof_address@,
        offer_tags_view(t).expiration == t.expiration@,
        terms_view(terms).name == terms.name@ && terms_view(terms).buyer == terms.buyer@,
        terms_view(terms).price == terms.price,
        terms_view(terms).proof_address == terms.proof_address@,
        terms_view(terms).expiration == terms.expiration,
        step_view(Step::Reply(r)) == Step::Reply(r@),
        step_view(Step::Ask(Ask::Insert(o))) == Step::Ask(Ask::Insert(new_offer_view(o))),
        step_view(Step::Ask(Ask::Execute(p))) == Step::Ask(Ask::Execute(plan_view(p))),
        ask_view(Ask::Offer { offer_id: a }) == (Ask::Offer { offer_id: a@ }),
        ask_view(Ask::Now) == Ask::<Seq<char>>::Now,
        ask_view(Ask::Tip) == Ask::<Seq<char>>::Tip,
        ask_view(Ask::MarkDead { offer_id: a, status: b, end_height: end, at: n }) == (
        Ask::MarkDead { offer_id: a@, status: b@, end_height: end, at: n }),
        ask_view(Ask::MarkRevoked { offer_id: a }) == (Ask::MarkRevoked { offer_id: a@ }),
        ask_view(Ask::Reread { offer_id: a }) == (Ask::Reread { offer_id: a@ }),
        ask_view(Ask::Transfer { offer_id: a }) == (Ask::Transfer { offer_id: a@ }),
        ask_view(Ask::Owner { name: a }) == (Ask::Owner { name: a@ }),
        ask_view(Ask::LiveForName { name: a, now: n }) == (Ask::LiveForName { name: a@, now: n }),
        ask_view(Ask::LiveForAddress { address: a, now: n }) == (Ask::LiveForAddress {
            address: a@,
            now: n,
        }),
        ask_view(Ask::Kernel { excess: a }) == (Ask::Kernel { excess: a@ }),
        ask_view(Ask::ExcessUsed { excess: a }) == (Ask::ExcessUsed { excess: a@ }),
        ask_view(Ask::NameOf { pubkey: a }) == (Ask::NameOf { pubkey: a@ }),
        ask_view(Ask::Arm { bucket: a, key: b }) == (Ask::Arm { bucket: a@, key: b@ }),
        txn_view(Txn::Run(Statement::MoveName { name: a, seller: b, buyer: c, at: n })) == Txn::Run(
            Statement::MoveName { name: a@, seller: b@, buyer: c@, at: n },
        ),
        txn_view(Txn::Run(Statement::Record(p))) == Txn::Run(Statement::Record(plan_view(p))),
        txn_view(Txn::Run(Statement::Consume { offer_id: a })) == Txn::Run(
            Statement::Consume { offer_id: a@ },
        ),
        txn_view(Txn::Run(Statement::Begin)) == Txn::Run(Statement::<Seq<char>>::Begin),
        txn_view(Txn::Run(Statement::Commit)) == Txn::Run(Statement::<Seq<char>>::Commit),
        txn_view(Txn::Done(Ok(()))) == Txn::<Seq<char>>::Done(Ok(())),
        txn_view(Txn::Done(Err(TxErr::Reused))) == Txn::<Seq<char>>::Done(Err(TxErr::Reused)),
{
}

/// An offer is refused where the body is no JSON, holds no event under `offer`,
/// or one that is not signed or of another kind; where another key signed the
/// request; and where a term is missing or none that this authority takes.
pub proof fn bad_offers_are_refused(
    cfg: ConfigView,
    req: Request,
    seen: Seen,
    key: Seq<char>,
    nodes: json::Nodes,
)
    requires
        entry::signed_entry(
            cfg,
            "transfer"@,
            "POST"@,
            "/api/v1/transfer/offer"@,
            req,
            req.body@,
            seen.entry,
        ) == Entry::Pass(key),
    ensures
        ({
            let step = lodge(cfg, req, seen);
            let bad = Step::Reply(Reply { status: 400, body: Body::Error("invalid offer"@) });
            let offer = seq![json::Step::Key("offer"@)];
            &&& json::document(req.body@) is None ==> step == bad
            &&& json::document(req.body@) == Some(nodes) ==> {
                let bytes = encode_utf8(nodes[offer].written);
                &&& !nodes.contains_key(offer) ==> step == bad
                &&& nodes.contains_key(offer) && event::event_of(bytes) is None ==> step == bad
                &&& nodes.contains_key(offer) && !event::event_signed(bytes) ==> step == bad
                &&& nodes.contains_key(offer) && event::event_signed(bytes) ==> (event::event_of(
                    bytes,
                ) matches Some(e) ==> {
                    &&& e.kind != 3402 ==> step == bad
                    &&& e.kind == 3402 && e.pubkey != key ==> step == Step::Reply(
                        Reply {
                            status: 401,
                            body: Body::Error("auth pubkey does not match offer pubkey"@),
                        },
                    )
                    &&& e.kind == 3402 && e.pubkey == key ==> {
                        &&& !(last_tag(e.tags, "name"@) matches Some(name) && names::is_name(
                            name,
                            cfg.name_min as int,
                            cfg.name_max as int,
                        )) ==> step == bad
                        &&& last_tag(e.tags, "domain"@) != Some(cfg.domain) ==> step == bad
                        &&& !(last_tag(e.tags, "p"@) matches Some(buyer) && names::is_pubkey_hex(
                            text::lower(buyer),
                        )) ==> step == bad
                        &&& !(last_tag(e.tags, "price"@) matches Some(price)
                            && digits::unsigned_value(text::trimmed(price), 0xffff_ffff_ffff_ffff)
                            is Some) ==> step == bad
                        &&& !(last_tag(e.tags, "proof_address"@) matches Some(to)
                            && address::address_key(text::lower(text::trimmed(to))) is Some)
                            ==> step == bad
                        &&& !(last_tag(e.tags, "expiration"@) matches Some(end)
                            && digits::signed_value(text::trimmed(end)) is Some) ==> step == bad
                    }
                })
            }
        }),
{
    let none = Seq::<json::Step>::empty();
    let offer = json::Step::Key("offer"@);
    assert(seq![offer] + none =~= seq![offer]);
}

/// An offer that ended is read as it stands once it has been made `expired`.
pub proof fn ended_offers_are_read_as_they_stand(
    offer_id: Seq<char>,
    req: Request,
    seen: Seen,
    row: OfferRow,
    fresh: OfferRow,
    now: i64,
)
    requires
        seen.entry.allowed == Some(true),
        seen.offer == Some(Some(row)),
        seen.now == Some(now),
        row.status@ == "live"@,
        now > row.expiration,
    ensures
        seen.tip is None ==> read(offer_id, req, seen) == Step::Ask(Ask::<Seq<char>>::Tip),
        seen.tip is Some && !seen.marked ==> (read(offer_id, req, seen) matches Step::Ask(
            Ask::MarkDead { offer_id: id, status, end_height, at },
        ) && id == row.offer_id@ && status == "expired"@ && at == now),
        seen.tip is Some && seen.marked && seen.reread == Some(Some(fresh)) ==> read(
            offer_id,
            req,
            seen,
        ) == Step::Reply(
            Reply {
                status: 200,
                body: Body::Offer { event_json: fresh.event_json@, status: fresh.status@ },
            },
        ),
{
}

/// A request that does not pass the entry is answered by it.
pub proof fn the_entry_answers_first(cfg: ConfigView, offer_id: Seq<char>, req: Request, seen: Seen)
    ensures
        match entry::signed_entry(
            cfg,
            "transfer"@,
            "POST"@,
            "/api/v1/transfer/offer"@,
            req,
            req.body@,
            seen.entry,
        ) {
            Entry::Ask(a) => lodge(cfg, req, seen) == Step::Ask(Ask::Entry(a)),
            Entry::Refuse(r) => lodge(cfg, req, seen) == Step::Reply(r),
            Entry::Pass(_) => true,
        },
        match entry::signed_entry(
            cfg,
            "transfer"@,
            "DELETE"@,
            "/api/v1/transfer/offer/"@ + offer_id,
            req,
            Seq::empty(),
            seen.entry,
        ) {
            Entry::Ask(a) => revoke(cfg, offer_id, req, seen) == Step::Ask(Ask::Entry(a)),
            Entry::Refuse(r) => revoke(cfg, offer_id, req, seen) == Step::Reply(r),
            Entry::Pass(_) => true,
        },
        match entry::signed_entry(
            cfg,
            "transfer"@,
            "POST"@,
            "/api/v1/transfer/claim"@,
            req,
            req.body@,
            seen.entry,
        ) {
            Entry::Ask(a) => claim_step(cfg, req, seen) == Step::Ask(Ask::Entry(a)),
            Entry::Refuse(r) => claim_step(cfg, req, seen) == Step::Reply(r),
            Entry::Pass(_) => true,
        },
{
}

} // verus!
