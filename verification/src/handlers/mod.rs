//! The HTTP surface: what each endpoint answers.
//!
//! A handler is a function of the request and of what has been learned for it
//! so far. It names the next thing to find out or to do, or the answer. Whoever
//! runs it does that and calls it again with one thing more known.

use crate::config::Config;
use vstd::prelude::*;

pub mod entry;
pub mod paidapi;
pub mod reply;
pub mod transfer;

verus! {

/// An HTTP method.
#[derive(Debug, Clone, Copy, PartialEq, Eq, Structural)]
pub enum Verb {
    Get,
    Post,
    Delete,
}

/// A handler.
#[derive(Debug, Clone, Copy, PartialEq, Eq, Structural)]
pub enum Endpoint {
    PaidStatus,
    Quote,
    Webhook,
    LodgeOffer,
    ReadOffer,
    RevokeOffer,
    Claim,
}

/// A route: the method and the path that lead to a handler. Braces in the path
/// stand for the part that the handler takes.
pub struct Route {
    pub verb: Verb,
    pub path: &'static str,
    pub endpoint: Endpoint,
}

/// What a route holds.
pub struct RouteView {
    pub verb: Verb,
    pub path: Seq<char>,
    pub endpoint: Endpoint,
}

impl View for Route {
    type V = RouteView;

    open spec fn view(&self) -> RouteView {
        RouteView { verb: self.verb, path: self.path@, endpoint: self.endpoint }
    }
}

/// The routes that always exist.
pub open spec fn paid_routes() -> Seq<RouteView> {
    seq![
        RouteView {
            verb: Verb::Get,
            path: "/api/v1/paid/{pubkey}"@,
            endpoint: Endpoint::PaidStatus,
        },
        RouteView { verb: Verb::Post, path: "/api/v1/quote"@, endpoint: Endpoint::Quote },
        RouteView {
            verb: Verb::Post,
            path: "/api/v1/goblinpay/webhook"@,
            endpoint: Endpoint::Webhook,
        },
    ]
}

/// The routes of the marketplace.
pub open spec fn transfer_routes() -> Seq<RouteView> {
    seq![
        RouteView {
            verb: Verb::Post,
            path: "/api/v1/transfer/offer"@,
            endpoint: Endpoint::LodgeOffer,
        },
        RouteView {
            verb: Verb::Get,
            path: "/api/v1/transfer/offer/{offer_id}"@,
            endpoint: Endpoint::ReadOffer,
        },
        RouteView {
            verb: Verb::Delete,
            path: "/api/v1/transfer/offer/{offer_id}"@,
            endpoint: Endpoint::RevokeOffer,
        },
        RouteView { verb: Verb::Post, path: "/api/v1/transfer/claim"@, endpoint: Endpoint::Claim },
    ]
}

/// The routes of an authority: those of the marketplace exist only where it is
/// enabled.
pub open spec fn routes_of(allow_transfers: bool) -> Seq<RouteView> {
    if allow_transfers {
        paid_routes() + transfer_routes()
    } else {
        paid_routes()
    }
}

/// The routes over character sequences.
pub open spec fn route_views(list: Seq<Route>) -> Seq<RouteView> {
    list.map_values(|r: Route| r@)
}

/// The routes of an authority. Without the marketplace its routes do not
/// exist, and requests to them find nothing.
pub fn routes(cfg: &Config) -> (list: Vec<Route>)
    ensures
        route_views(list@) == routes_of(cfg.allow_transfers),
{
    let mut list: Vec<Route> = Vec::new();
    list.push(
        Route { verb: Verb::Get, path: "/api/v1/paid/{pubkey}", endpoint: Endpoint::PaidStatus },
    );
    list.push(Route { verb: Verb::Post, path: "/api/v1/quote", endpoint: Endpoint::Quote });
    list.push(
        Route {
            verb: Verb::Post,
            path: "/api/v1/goblinpay/webhook",
            endpoint: Endpoint::Webhook,
        },
    );
    if cfg.allow_transfers {
        list.push(
            Route {
                verb: Verb::Post,
                path: "/api/v1/transfer/offer",
                endpoint: Endpoint::LodgeOffer,
            },
        );
        list.push(
            Route {
                verb: Verb::Get,
                path: "/api/v1/transfer/offer/{offer_id}",
                endpoint: Endpoint::ReadOffer,
            },
        );
        list.push(
            Route {
                verb: Verb::Delete,
                path: "/api/v1/transfer/offer/{offer_id}",
                endpoint: Endpoint::RevokeOffer,
            },
        );
        list.push(
            Route { verb: Verb::Post, path: "/api/v1/transfer/claim", endpoint: Endpoint::Claim },
        );
    }
    assert(route_views(list@) =~= routes_of(cfg.allow_transfers));
    list
}

/// Whether a handler belongs to the marketplace.
pub open spec fn is_transfer(e: Endpoint) -> bool {
    e == Endpoint::LodgeOffer || e == Endpoint::ReadOffer || e == Endpoint::RevokeOffer || e
        == Endpoint::Claim
}

/// Whether a route leads to the handler.
pub open spec fn serves(list: Seq<RouteView>, e: Endpoint) -> bool {
    exists|i: int| 0 <= i < list.len() && #[trigger] list[i].endpoint == e
}

/// Without the marketplace no route leads to it, and every other handler is
/// served all the same; with it, every handler is.
pub proof fn marketplace_is_optional(e: Endpoint)
    ensures
        serves(routes_of(false), e) <==> !is_transfer(e),
        serves(routes_of(true), e),
{
    let on = routes_of(true);
    let off = routes_of(false);
    match e {
        Endpoint::PaidStatus => {
            assert(on[0].endpoint == e && off[0].endpoint == e);
        },
        Endpoint::Quote => {
            assert(on[1].endpoint == e && off[1].endpoint == e);
        },
        Endpoint::Webhook => {
            assert(on[2].endpoint == e && off[2].endpoint == e);
        },
        Endpoint::LodgeOffer => {
            assert(on[3].endpoint == e);
        },
        Endpoint::ReadOffer => {
            assert(on[4].endpoint == e);
        },
        Endpoint::RevokeOffer => {
            assert(on[5].endpoint == e);
        },
        Endpoint::Claim => {
            assert(on[6].endpoint == e);
        },
    }
}

// ---------------------------------------------------------------------------
// Laws
// ---------------------------------------------------------------------------

/// Every handler is served under its own method and path, and under no other.
pub proof fn handlers_have_their_route(i: int)
    requires
        0 <= i < routes_of(true).len(),
    ensures
        routes_of(true).len() == 7,
        routes_of(false).len() == 3,
        i < 3 ==> routes_of(false)[i] == routes_of(true)[i],
        ({
            let r = routes_of(true)[i];
            match r.endpoint {
                Endpoint::PaidStatus => r.verb == Verb::Get && r.path == "/api/v1/paid/{pubkey}"@,
                Endpoint::Quote => r.verb == Verb::Post && r.path == "/api/v1/quote"@,
                Endpoint::Webhook => r.verb == Verb::Post && r.path == "/api/v1/goblinpay/webhook"@,
                Endpoint::LodgeOffer => r.verb == Verb::Post && r.path
                    == "/api/v1/transfer/offer"@,
                Endpoint::ReadOffer => r.verb == Verb::Get && r.path
                    == "/api/v1/transfer/offer/{offer_id}"@,
                Endpoint::RevokeOffer => r.verb == Verb::Delete && r.path
                    == "/api/v1/transfer/offer/{offer_id}"@,
                Endpoint::Claim => r.verb == Verb::Post && r.path == "/api/v1/transfer/claim"@,
            }
        }),
{
}

/// A route is seen as it is.
pub proof fn route_views_show_the_fields(r: Route)
    ensures
        r@.verb == r.verb,
        r@.path == r.path@,
        r@.endpoint == r.endpoint,
{
}

} // verus!
