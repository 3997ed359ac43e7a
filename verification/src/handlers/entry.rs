//! What every request passes first: the rate limit and, where the endpoint
//! asks for it, the signature of a Nostr key that was not used before.

use crate::auth;
use crate::auth::{verify_nip98, AuthRequest};
use crate::config::{Config, ConfigView};
use crate::handlers::reply;
use crate::handlers::reply::{refuse, Reply};
use crate::names;
use crate::text;
use crate::util;
use crate::util::client_ip;
use vstd::prelude::*;
use vstd::string::*;

verus! {

/// A request.
pub struct Request {
    /// The `X-Real-IP` header, which the reverse proxy sets.
    pub real_ip: Option<String>,
    /// The `Authorization` header.
    pub authorization: Option<String>,
    pub body: Vec<u8>,
}

/// What has been learned at the entry.
pub struct EntrySeen {
    /// Whether the rate limit lets the request pass.
    pub allowed: Option<bool>,
    /// The time at which the signature is judged.
    pub auth_time: Option<i64>,
    /// Whether the auth event is seen for the first time.
    pub fresh: Option<bool>,
}

impl EntrySeen {
    /// Nothing yet.
    pub fn new() -> (seen: EntrySeen)
        ensures
            seen == nothing(),
    {
        EntrySeen { allowed: None, auth_time: None, fresh: None }
    }
}

/// Nothing learned yet.
pub open spec fn nothing() -> EntrySeen {
    EntrySeen { allowed: None, auth_time: None, fresh: None }
}

/// What the entry asks for.
pub enum EntryAsk<S> {
    /// Count a read from this address: is it within the limit?
    AllowRead { ip: S },
    /// Count a write from this address to this bucket: is it within the limit?
    AllowWrite { bucket: S, ip: S },
    /// The time, in seconds since the epoch.
    AuthTime,
    /// Remember this auth event: is it seen for the first time?
    FreshAuth { id: S },
}

/// Where a request stands at the entry.
pub enum Entry<S> {
    /// Something is to be found out first.
    Ask(EntryAsk<S>),
    /// The request is refused.
    Refuse(Reply<S>),
    /// The request passes, signed by this key.
    Pass(S),
}

/// What the entry asks for, over character sequences.
pub open spec fn entry_ask_view(a: EntryAsk<String>) -> EntryAsk<Seq<char>> {
    match a {
        EntryAsk::AllowRead { ip } => EntryAsk::AllowRead { ip: ip@ },
        EntryAsk::AllowWrite { bucket, ip } => EntryAsk::AllowWrite { bucket: bucket@, ip: ip@ },
        EntryAsk::AuthTime => EntryAsk::AuthTime,
        EntryAsk::FreshAuth { id } => EntryAsk::FreshAuth { id: id@ },
    }
}

/// Where a request stands, over character sequences.
pub open spec fn entry_view(g: Entry<String>) -> Entry<Seq<char>> {
    match g {
        Entry::Ask(a) => Entry::Ask(entry_ask_view(a)),
        Entry::Refuse(r) => Entry::Refuse(r@),
        Entry::Pass(key) => Entry::Pass(key@),
    }
}

/// Where a request to a signed endpoint stands, whose signature covers `body`.
/// The rate limit comes first, then the signature, then its first use.
pub open spec fn signed_entry(
    cfg: ConfigView,
    bucket: Seq<char>,
    method: Seq<char>,
    path: Seq<char>,
    req: Request,
    body: Seq<u8>,
    seen: EntrySeen,
) -> Entry<Seq<char>> {
    match seen.allowed {
        None => Entry::Ask(EntryAsk::AllowWrite { bucket, ip: util::ip_of(req.real_ip) }),
        Some(false) => Entry::Refuse(reply::refusal(429, "rate_limited"@)),
        Some(true) => match seen.auth_time {
            None => Entry::Ask(EntryAsk::AuthTime),
            Some(now) => match auth::authenticated(
                text::opt_view(req.authorization),
                method,
                cfg.base_url + path,
                body,
                cfg.auth_max_age_secs,
                now as int,
            ) {
                Err(why) => Entry::Refuse(reply::refusal(401, why)),
                Ok((key, id)) => match seen.fresh {
                    None => Entry::Ask(EntryAsk::FreshAuth { id }),
                    Some(false) => Entry::Refuse(reply::refusal(401, "auth event replayed"@)),
                    Some(true) => Entry::Pass(key),
                },
            },
        },
    }
}

/// Where a request to a signed endpoint stands, whose signature covers `body`.
pub fn pass_signed(
    cfg: &Config,
    bucket: &str,
    method: &str,
    path: &str,
    req: &Request,
    body: &[u8],
    seen: &EntrySeen,
) -> (g: Entry<String>)
    ensures
        entry_view(g) == signed_entry(cfg@, bucket@, method@, path@, *req, body@, *seen),
        g matches Entry::Pass(key) ==> names::is_pubkey_hex(key@),
{
    match seen.allowed {
        None => {
            return Entry::Ask(
                EntryAsk::AllowWrite { bucket: bucket.to_owned(), ip: client_ip(&req.real_ip) },
            );
        },
        Some(allowed) => {
            if !allowed {
                return Entry::Refuse(refuse(429, "rate_limited"));
            }
        },
    }
    let now: i64 = match seen.auth_time {
        None => {
            return Entry::Ask(EntryAsk::AuthTime);
        },
        Some(t) => t,
    };
    let authorization = match &req.authorization {
        Some(h) => Some(h),
        None => None,
    };
    let request = AuthRequest { authorization, method, path, body };
    match verify_nip98(&request, cfg.base_url.as_str(), cfg.auth_max_age_secs, now) {
        Err(why) => Entry::Refuse(refuse(401, why.as_str())),
        Ok((key, id)) => match seen.fresh {
            None => Entry::Ask(EntryAsk::FreshAuth { id }),
            Some(fresh) => {
                if fresh {
                    Entry::Pass(key)
                } else {
                    Entry::Refuse(refuse(401, "auth event replayed"))
                }
            },
        },
    }
}

// ---------------------------------------------------------------------------
// Laws
// ---------------------------------------------------------------------------

/// Whether what is asked for is still unknown.
pub open spec fn entry_unknown(a: EntryAsk<Seq<char>>, seen: EntrySeen) -> bool {
    match a {
        EntryAsk::AllowRead { .. } => seen.allowed is None,
        EntryAsk::AllowWrite { .. } => seen.allowed is None,
        EntryAsk::AuthTime => seen.auth_time is None,
        EntryAsk::FreshAuth { .. } => seen.fresh is None,
    }
}

/// A request passes only within the rate limit, signed for this very request
/// by the key that it then counts for, with an event seen for the first time;
/// and nothing is asked for twice.
pub proof fn passes_only_signed(
    cfg: ConfigView,
    bucket: Seq<char>,
    method: Seq<char>,
    path: Seq<char>,
    req: Request,
    body: Seq<u8>,
    seen: EntrySeen,
)
    ensures
        signed_entry(cfg, bucket, method, path, req, body, seen) matches Entry::Pass(key) ==> {
            &&& seen.allowed == Some(true)
            &&& seen.fresh == Some(true)
            &&& seen.auth_time matches Some(now) && auth::authenticated(
                text::opt_view(req.authorization),
                method,
                cfg.base_url + path,
                body,
                cfg.auth_max_age_secs,
                now as int,
            ) matches Ok((k, _)) && k == key
        },
        signed_entry(cfg, bucket, method, path, req, body, seen) matches Entry::Ask(a) ==> entry_unknown(
            a,
            seen,
        ),
{
}

/// A request of a signed endpoint passes where the rate limit lets it, it is
/// signed for this method, address and body, and its auth event is new; then it
/// counts for the key that signed it. What is not known of that is asked for in
/// this order, and what does not hold is refused with 429 or 401.
pub proof fn signed_requests_pass(
    cfg: ConfigView,
    bucket: Seq<char>,
    method: Seq<char>,
    path: Seq<char>,
    req: Request,
    body: Seq<u8>,
    seen: EntrySeen,
    now: i64,
    key: Seq<char>,
    id: Seq<char>,
)
    requires
        auth::authenticated(
            match req.authorization {
                Some(h) => Some(h@),
                None => None,
            },
            method,
            cfg.base_url + path,
            body,
            cfg.auth_max_age_secs,
            now as int,
        ) == Ok::<(Seq<char>, Seq<char>), Seq<char>>((key, id)),
    ensures
        ({
            let g = signed_entry(cfg, bucket, method, path, req, body, seen);
            &&& seen.allowed is None ==> g == Entry::Ask(
                EntryAsk::AllowWrite {
                    bucket,
                    ip: match req.real_ip {
                        Some(ip) => ip@,
                        None => "unknown"@,
                    },
                },
            )
            &&& seen.allowed == Some(false) ==> g == Entry::Refuse(
                Reply { status: 429, body: reply::Body::Error("rate_limited"@) },
            )
            &&& seen.allowed == Some(true) && seen.auth_time is None ==> g == Entry::Ask(
                EntryAsk::<Seq<char>>::AuthTime,
            )
            &&& seen.allowed == Some(true) && seen.auth_time == Some(now) ==> match seen.fresh {
                None => g == Entry::Ask(EntryAsk::FreshAuth { id }),
                Some(false) => g == Entry::Refuse(
                    Reply { status: 401, body: reply::Body::Error("auth event replayed"@) },
                ),
                Some(true) => g == Entry::Pass(key),
            }
        }),
{
}

/// A request that is not signed is refused with 401, and why.
pub proof fn unsigned_requests_are_refused(
    cfg: ConfigView,
    bucket: Seq<char>,
    method: Seq<char>,
    path: Seq<char>,
    req: Request,
    body: Seq<u8>,
    seen: EntrySeen,
    now: i64,
    why: Seq<char>,
)
    requires
        seen.allowed == Some(true),
        seen.auth_time == Some(now),
        auth::authenticated(
            match req.authorization {
                Some(h) => Some(h@),
                None => None,
            },
            method,
            cfg.base_url + path,
            body,
            cfg.auth_max_age_secs,
            now as int,
        ) == Err::<(Seq<char>, Seq<char>), Seq<char>>(why),
    ensures
        signed_entry(cfg, bucket, method, path, req, body, seen) == Entry::Refuse(
            Reply { status: 401, body: reply::Body::Error(why) },
        ),
{
}

/// What the entry asks for, and where a request stands, is seen as it is.
pub proof fn entry_views_show_the_texts(ip: String, bucket: String, key: String)
    ensures
        entry_ask_view(EntryAsk::AllowRead { ip }) == (EntryAsk::AllowRead { ip: ip@ }),
        entry_ask_view(EntryAsk::AllowWrite { bucket, ip }) == (EntryAsk::AllowWrite {
            bucket: bucket@,
            ip: ip@,
        }),
        entry_ask_view(EntryAsk::AuthTime) == EntryAsk::<Seq<char>>::AuthTime,
        entry_ask_view(EntryAsk::FreshAuth { id: key }) == (EntryAsk::FreshAuth { id: key@ }),
        entry_view(Entry::Pass(key)) == Entry::Pass(key@),
        entry_view(Entry::Ask(EntryAsk::FreshAuth { id: key })) == Entry::Ask(
            EntryAsk::FreshAuth { id: key@ },
        ),
        entry_view(Entry::Ask(EntryAsk::AllowWrite { bucket, ip })) == Entry::Ask(
            EntryAsk::AllowWrite { bucket: bucket@, ip: ip@ },
        ),
        entry_view(Entry::Ask(EntryAsk::AuthTime)) == Entry::Ask(EntryAsk::<Seq<char>>::AuthTime),
{
}

} // verus!
