//! What the marketplace does to the tables, as a model.
//!
//! The statements of [`crate::db`] are modelled by what they do to the active
//! names, the offers and the completed transfers. The laws here say what the
//! transaction of a claim amounts to, and what no sequence of requests can
//! break: one name for each key, one live offer for each name and each address,
//! one transfer for each payment.

use crate::config::ConfigView;
use crate::handlers::entry::Request;
use crate::handlers::transfer;
use crate::handlers::transfer::{
    Ask, NewOffer, Outcome, Plan, Seen, Statement, Step, TxErr, Txn,
};
use vstd::prelude::*;
use vstd::string::*;

verus! {

/// An offer as the tables hold it.
pub struct Offer {
    pub name: Seq<char>,
    pub address: Seq<char>,
    pub expiration: i64,
    pub status: Seq<char>,
}

/// The tables.
pub struct Tables {
    /// The key that holds each active name.
    pub owners: Map<Seq<char>, Seq<char>>,
    /// The offers, by id.
    pub offers: Map<Seq<char>, Offer>,
    /// The completed transfers.
    pub transfers: Seq<Plan<Seq<char>>>,
}

/// Whether the seller holds the name.
pub open spec fn holds(t: Tables, name: Seq<char>, key: Seq<char>) -> bool {
    t.owners.contains_key(name) && t.owners[name] == key
}

/// Whether the key holds a name besides this one.
pub open spec fn holds_another(t: Tables, name: Seq<char>, key: Seq<char>) -> bool {
    exists|other: Seq<char>| other != name && #[trigger] holds(t, other, key)
}

/// Whether a completed transfer used the excess.
pub open spec fn used(t: Tables, excess: Seq<char>) -> bool {
    exists|i: int| 0 <= i < t.transfers.len() && (#[trigger] t.transfers[i]).excess == excess
}

/// Whether the offer has a completed transfer.
pub open spec fn completed(t: Tables, offer_id: Seq<char>) -> bool {
    exists|i: int| 0 <= i < t.transfers.len() && (#[trigger] t.transfers[i]).offer_id == offer_id
}

/// Each key holds one name at most, and each payment and each offer has one
/// transfer at most.
pub open spec fn sound(t: Tables) -> bool {
    &&& forall|a: Seq<char>, b: Seq<char>, key: Seq<char>| #[trigger]
        holds(t, a, key) && #[trigger] holds(t, b, key) ==> a == b
    &&& forall|i: int, j: int|
        0 <= i < j < t.transfers.len() ==> (#[trigger] t.transfers[i]).excess != (
        #[trigger] t.transfers[j]).excess
    &&& forall|i: int, j: int|
        0 <= i < j < t.transfers.len() ==> (#[trigger] t.transfers[i]).offer_id != (
        #[trigger] t.transfers[j]).offer_id
}

/// What a statement does, and what comes of it.
pub open spec fn effect(t: Tables, s: Statement<Seq<char>>) -> (Outcome, Tables) {
    match s {
        Statement::Begin => (Outcome::Rows(0), t),
        Statement::MoveName { name, seller, buyer, at } => if !holds(t, name, seller) {
            (Outcome::Rows(0), t)
        } else if holds_another(t, name, buyer) {
            (Outcome::Constraint, t)
        } else {
            (Outcome::Rows(1), Tables { owners: t.owners.insert(name, buyer), ..t })
        },
        Statement::Record(plan) => if used(t, plan.excess) || completed(t, plan.offer_id) {
            (Outcome::Constraint, t)
        } else {
            (Outcome::Rows(1), Tables { transfers: t.transfers.push(plan), ..t })
        },
        Statement::Consume { offer_id } => (Outcome::Rows(1), consumed(t, offer_id)),
        Statement::Commit => (Outcome::Rows(0), t),
    }
}

/// The tables with the offer consumed.
pub open spec fn consumed(t: Tables, offer_id: Seq<char>) -> Tables {
    with_status(t, offer_id, "consumed"@)
}

/// The transaction of a claim on the tables: `before` is what they were when it
/// began and what they are again where it fails; `now` is what they are after
/// the statements that have run.
pub open spec fn run(
    plan: Plan<Seq<char>>,
    before: Tables,
    now: Tables,
    outcomes: Seq<Outcome>,
) -> (Result<(), TxErr>, Tables)
    decreases 6 - outcomes.len(),
    when outcomes.len() <= 5
{
    match transfer::txn(plan, outcomes) {
        Txn::Done(Ok(_)) => (Ok(()), now),
        Txn::Done(Err(e)) => (Err(e), before),
        Txn::Run(s) => {
            let (outcome, next) = effect(now, s);
            run(plan, before, next, outcomes.push(outcome))
        },
    }
}

/// The transaction of a claim on the tables.
pub open spec fn claim_on(t: Tables, plan: Plan<Seq<char>>) -> (Result<(), TxErr>, Tables) {
    run(plan, t, t, Seq::empty())
}

/// Why a claim fails on the tables, if it does: the first thing that is wrong.
pub open spec fn obstacle(t: Tables, plan: Plan<Seq<char>>) -> Option<TxErr> {
    if !holds(t, plan.name, plan.seller) {
        Some(TxErr::OwnerChanged)
    } else if holds_another(t, plan.name, plan.buyer) {
        Some(TxErr::BuyerHasName)
    } else if used(t, plan.excess) || completed(t, plan.offer_id) {
        Some(TxErr::Reused)
    } else {
        None
    }
}

/// The tables after a claim that succeeds: the buyer holds the name, the
/// transfer is recorded, and the offer is consumed.
pub open spec fn transferred(t: Tables, plan: Plan<Seq<char>>) -> Tables {
    consumed(
        Tables {
            owners: t.owners.insert(plan.name, plan.buyer),
            transfers: t.transfers.push(plan),
            ..t
        },
        plan.offer_id,
    )
}

/// What the transaction of a claim amounts to: it succeeds exactly where the
/// seller holds the name, the buyer holds no other, and neither the payment nor
/// the offer was used. Then all of it is done; else nothing is, and the error
/// names the first thing that was wrong.
pub proof fn claim_is_atomic(t: Tables, plan: Plan<Seq<char>>)
    ensures
        match obstacle(t, plan) {
            None => claim_on(t, plan).0 is Ok && claim_on(t, plan).1 == transferred(t, plan),
            Some(e) => claim_on(t, plan) == (Err::<(), TxErr>(e), t),
        },
{
    reveal_with_fuel(run, 7);
    let o0 = Seq::<Outcome>::empty();
    let o1 = o0.push(Outcome::Rows(0));
    let move_name = Statement::MoveName {
        name: plan.name,
        seller: plan.seller,
        buyer: plan.buyer,
        at: plan.at,
    };
    let (m, t1) = effect(t, move_name);
    let o2 = o1.push(m);
    assert(transfer::txn(plan, o0) == Txn::Run(Statement::<Seq<char>>::Begin));
    assert(o1[0] == Outcome::Rows(0));
    assert(transfer::txn(plan, o1) == Txn::Run(move_name));
    assert(o2[0] == Outcome::Rows(0) && o2[1] == m);
    if m == Outcome::Rows(1) {
        let (r, t2) = effect(t1, Statement::Record(plan));
        let o3 = o2.push(r);
        assert(transfer::txn(plan, o2) == Txn::Run(Statement::Record(plan)));
        assert(o3[0] == Outcome::Rows(0) && o3[1] == m && o3[2] == r);
        assert(used(t1, plan.excess) == used(t, plan.excess));
        assert(completed(t1, plan.offer_id) == completed(t, plan.offer_id));
        if r is Rows {
            let o4 = o3.push(Outcome::Rows(1));
            let o5 = o4.push(Outcome::Rows(0));
            assert(o4[0] == Outcome::Rows(0) && o4[1] == m && o4[2] == r && o4[3] == Outcome::Rows(
                1,
            ));
            assert(o5[0] == Outcome::Rows(0) && o5[1] == m && o5[2] == r && o5[3] == Outcome::Rows(1)
                && o5[4] == Outcome::Rows(0));
            assert(run(plan, t, consumed(t2, plan.offer_id), o5).1 == consumed(t2, plan.offer_id));
        }
    }
}

/// Claims keep the tables sound: each key holds one name at most, and each
/// payment and each offer has one transfer at most.
pub proof fn claims_keep_the_tables_sound(t: Tables, plan: Plan<Seq<char>>)
    requires
        sound(t),
    ensures
        sound(claim_on(t, plan).1),
{
    claim_is_atomic(t, plan);
    if obstacle(t, plan) is None {
        let after = transferred(t, plan);
        assert forall|a: Seq<char>, b: Seq<char>, key: Seq<char>| #[trigger]
            holds(after, a, key) && #[trigger] holds(after, b, key) implies a == b by {
            if a != plan.name {
                assert(holds(t, a, key));
            }
            if b != plan.name {
                assert(holds(t, b, key));
            }
        }
        assert forall|i: int, j: int| 0 <= i < j < after.transfers.len() implies (
        #[trigger] after.transfers[i]).excess != (#[trigger] after.transfers[j]).excess by {
            assert(after.transfers[i] == t.transfers[i]);
            if j < t.transfers.len() {
                assert(after.transfers[j] == t.transfers[j]);
            }
        }
        assert forall|i: int, j: int| 0 <= i < j < after.transfers.len() implies (
        #[trigger] after.transfers[i]).offer_id != (#[trigger] after.transfers[j]).offer_id by {
            assert(after.transfers[i] == t.transfers[i]);
            if j < t.transfers.len() {
                assert(after.transfers[j] == t.transfers[j]);
            }
        }
    }
}

/// A payment buys once: after a claim that succeeds, no other claim with the
/// same kernel, and none of the same offer, succeeds, whatever claims come in
/// between.
pub proof fn a_payment_buys_once(
    t: Tables,
    first: Plan<Seq<char>>,
    between: Seq<Plan<Seq<char>>>,
    second: Plan<Seq<char>>,
)
    requires
        claim_on(t, first).0 is Ok,
        second.excess == first.excess || second.offer_id == first.offer_id,
    ensures
        claim_on(claims_on(claim_on(t, first).1, between), second).0 is Err,
{
    claim_is_atomic(t, first);
    let t1 = claim_on(t, first).1;
    assert(t1.transfers.last() == first);
    let at = t.transfers.len() as int;
    assert(t1.transfers[at] == first);
    records_stay(t1, between, at);
    let t2 = claims_on(t1, between);
    claim_is_atomic(t2, second);
    assert(t2.transfers[at] == first);
}

/// The tables after these claims, one after the other.
pub open spec fn claims_on(t: Tables, plans: Seq<Plan<Seq<char>>>) -> Tables
    decreases plans.len(),
{
    if plans.len() == 0 {
        t
    } else {
        claim_on(claims_on(t, plans.drop_last()), plans.last()).1
    }
}

proof fn records_stay(t: Tables, plans: Seq<Plan<Seq<char>>>, i: int)
    requires
        0 <= i < t.transfers.len(),
    ensures
        i < claims_on(t, plans).transfers.len(),
        claims_on(t, plans).transfers[i] == t.transfers[i],
    decreases plans.len(),
{
    if plans.len() > 0 {
        records_stay(t, plans.drop_last(), i);
        claim_is_atomic(claims_on(t, plans.drop_last()), plans.last());
    }
}

/// A claim moves one name and nothing else: from the seller, who held it, to
/// the buyer.
pub proof fn only_the_sold_name_moves(t: Tables, plan: Plan<Seq<char>>, name: Seq<char>, key: Seq<
    char,
>)
    requires
        holds(t, name, key) != holds(claim_on(t, plan).1, name, key),
    ensures
        name == plan.name,
        holds(t, name, plan.seller),
        holds(claim_on(t, plan).1, name, plan.buyer),
{
    claim_is_atomic(t, plan);
}

// ---------------------------------------------------------------------------
// Offers
// ---------------------------------------------------------------------------

/// Whether an offer is live and has not ended by `now`.
pub open spec fn is_live(o: Offer, now: int) -> bool {
    o.status == "live"@ && o.expiration >= now
}

/// Whether an offer that is live at `now` is for this name.
pub open spec fn live_for_name(t: Tables, name: Seq<char>, now: int) -> bool {
    exists|id: Seq<char>| #[trigger]
        t.offers.contains_key(id) && is_live(t.offers[id], now) && t.offers[id].name == name
}

/// Whether an offer that is live at `now` is paid to this address.
pub open spec fn live_for_address(t: Tables, address: Seq<char>, now: int) -> bool {
    exists|id: Seq<char>| #[trigger]
        t.offers.contains_key(id) && is_live(t.offers[id], now) && t.offers[id].address == address
}

/// No two offers that are live at `now` are for one name or paid to one
/// address, so a payment to an address belongs to one sale.
pub open spec fn unambiguous(t: Tables, now: int) -> bool {
    forall|a: Seq<char>, b: Seq<char>|
        a != b && #[trigger] t.offers.contains_key(a) && #[trigger] t.offers.contains_key(b)
            && is_live(t.offers[a], now) && is_live(t.offers[b], now) ==> t.offers[a].name
            != t.offers[b].name && t.offers[a].address != t.offers[b].address
}

/// The tables with an offer stored as live, where its id is new.
pub open spec fn stored(t: Tables, o: NewOffer<Seq<char>>) -> Tables {
    if t.offers.contains_key(o.offer_id) {
        t
    } else {
        let offer = Offer {
            name: o.name,
            address: o.proof_address,
            expiration: o.expiration,
            status: "live"@,
        };
        Tables { offers: t.offers.insert(o.offer_id, offer), ..t }
    }
}

/// The tables with another status for an offer.
pub open spec fn with_status(t: Tables, offer_id: Seq<char>, status: Seq<char>) -> Tables {
    if t.offers.contains_key(offer_id) {
        let offer = Offer { status, ..t.offers[offer_id] };
        Tables { offers: t.offers.insert(offer_id, offer), ..t }
    } else {
        t
    }
}

/// The tables once what a handler asks for is done. Whatever only finds
/// something out leaves them as they are.
pub open spec fn performed(t: Tables, a: Ask<Seq<char>>) -> Tables {
    match a {
        Ask::Insert(o) => stored(t, o),
        Ask::MarkDead { offer_id, status, end_height, at } => if t.offers.contains_key(offer_id)
            && t.offers[offer_id].status == "live"@ {
            with_status(t, offer_id, status)
        } else {
            t
        },
        Ask::MarkRevoked { offer_id } => with_status(t, offer_id, "revoked"@),
        Ask::Execute(plan) => claim_on(t, plan).1,
        _ => t,
    }
}

/// Time keeps the offers unambiguous: what is live later was live before.
pub proof fn time_keeps_offers_unambiguous(t: Tables, now: int, later: int)
    requires
        unambiguous(t, now),
        now <= later,
    ensures
        unambiguous(t, later),
{
}

/// Lodging keeps the tables sound and the offers unambiguous: an offer is
/// stored only where no live offer has its name or its address, and nothing
/// else is asked for that changes the tables.
pub proof fn lodging_is_safe(
    t: Tables,
    cfg: ConfigView,
    req: Request,
    seen: Seen,
    now: i64,
)
    requires
        sound(t),
        unambiguous(t, now as int),
        seen.now == Some(now),
        transfer::lodge(cfg, req, seen) matches Step::Ask(Ask::Insert(o)) ==> {
            &&& seen.live_for_name == Some(live_for_name(t, o.name, now as int))
            &&& seen.live_for_address == Some(live_for_address(t, o.proof_address, now as int))
        },
    ensures
        transfer::lodge(cfg, req, seen) matches Step::Ask(a) ==> {
            &&& sound(performed(t, a))
            &&& unambiguous(performed(t, a), now as int)
            &&& performed(t, a).owners == t.owners
            &&& performed(t, a).transfers == t.transfers
        },
{
    transfer::lodged_offers_are_sound(cfg, req, seen);
    if let Step::Ask(a) = transfer::lodge(cfg, req, seen) {
        same_holders(t, performed(t, a));
    }
}

/// Reading and revoking keep the tables sound and the offers unambiguous: no
/// offer comes to life, no name moves and no transfer is recorded.
pub proof fn reading_and_revoking_are_safe(
    t: Tables,
    cfg: ConfigView,
    offer_id: Seq<char>,
    req: Request,
    seen: Seen,
    now: int,
)
    requires
        sound(t),
        unambiguous(t, now),
    ensures
        transfer::read(offer_id, req, seen) matches Step::Ask(a) ==> {
            &&& sound(performed(t, a))
            &&& unambiguous(performed(t, a), now)
            &&& performed(t, a).owners == t.owners
            &&& performed(t, a).transfers == t.transfers
        },
        transfer::revoke(cfg, offer_id, req, seen) matches Step::Ask(a) ==> {
            &&& sound(performed(t, a))
            &&& unambiguous(performed(t, a), now)
            &&& performed(t, a).owners == t.owners
            &&& performed(t, a).transfers == t.transfers
        },
{
    words_differ();
    if let Step::Ask(a) = transfer::read(offer_id, req, seen) {
        same_holders(t, performed(t, a));
    }
    if let Step::Ask(a) = transfer::revoke(cfg, offer_id, req, seen) {
        same_holders(t, performed(t, a));
    }
}

/// Claiming keeps the tables sound and the offers unambiguous.
pub proof fn claiming_is_safe(t: Tables, cfg: ConfigView, req: Request, seen: Seen, now: int)
    requires
        sound(t),
        unambiguous(t, now),
    ensures
        transfer::claim_step(cfg, req, seen) matches Step::Ask(a) ==> {
            &&& sound(performed(t, a))
            &&& unambiguous(performed(t, a), now)
        },
{
    words_differ();
    if let Step::Ask(a) = transfer::claim_step(cfg, req, seen) {
        match a {
            Ask::Execute(plan) => {
                claims_keep_the_tables_sound(t, plan);
                claim_is_atomic(t, plan);
            },
            _ => {
                same_holders(t, performed(t, a));
            },
        }
    }
}

/// The words for the state of an offer differ.
proof fn words_differ()
    ensures
        "live"@ != "consumed"@,
        "live"@ != "revoked"@,
        "live"@ != "expired"@,
{
    reveal_strlit("live");
    reveal_strlit("consumed");
    reveal_strlit("revoked");
    reveal_strlit("expired");
    assert("live"@.len() == 4 && "consumed"@.len() == 8 && "revoked"@.len() == 7
        && "expired"@.len() == 7);
}

/// Tables that differ in their offers alone are sound together.
proof fn same_holders(t: Tables, u: Tables)
    requires
        sound(t),
        t.owners == u.owners,
        t.transfers == u.transfers,
    ensures
        sound(u),
{
    assert forall|a: Seq<char>, b: Seq<char>, key: Seq<char>| #[trigger]
        holds(u, a, key) && #[trigger] holds(u, b, key) implies a == b by {
        assert(holds(t, a, key) && holds(t, b, key));
    }
}

} // verus!
