//! HTTP requests signed by a Nostr key: the `Authorization: Nostr <base64>`
//! header, whose event names the URL, the method and the body's hash.

use crate::crypto;
use crate::crypto::{base64_decode, hex_encode, sha256};
use crate::event;
use crate::event::{find_tag, read_event, verify_event, NostrEvent};
use crate::text;
use crate::text::{same, strip_prefix, trim};
use vstd::prelude::*;
use vstd::string::*;

verus! {

/// The kind of an HTTP auth event.
pub const AUTH_KIND: u16 = 27235;

/// A request as authentication sees it.
pub struct AuthRequest<'a> {
    /// The `Authorization` header, where it came as text.
    pub authorization: Option<&'a String>,
    pub method: &'a str,
    pub path: &'a str,
    pub body: &'a [u8],
}

/// Whether an event made at `created` is fresh at `now`: neither older than
/// `max_age` nor dated further ahead than that.
pub open spec fn is_fresh(created: u64, now: int, max_age: int) -> bool {
    -max_age <= now - created <= max_age
}

/// Why an event does not authenticate a request, if it does not.
pub open spec fn event_refusal(
    e: event::EventView,
    method: Seq<char>,
    url: Seq<char>,
    body: Seq<u8>,
    max_age: int,
    now: int,
) -> Option<Seq<char>> {
    if e.kind != AUTH_KIND {
        Some("wrong auth event kind"@)
    } else if event::tag_value(e.tags, "u"@) != Some(url) {
        Some("auth event url mismatch"@)
    } else if event::tag_value(e.tags, "method"@) != Some(method) {
        Some("auth event method mismatch"@)
    } else if body.len() > 0 && event::tag_value(e.tags, "payload"@) != Some(
        crypto::hex_text(crypto::sha256_of(body)),
    ) {
        Some("auth event payload mismatch"@)
    } else if !is_fresh(e.created_at, now, max_age) {
        Some("auth event expired or post-dated"@)
    } else {
        None
    }
}

/// Who signed a request, by key and event id, or why it counts as unsigned.
pub open spec fn authenticated(
    authorization: Option<Seq<char>>,
    method: Seq<char>,
    url: Seq<char>,
    body: Seq<u8>,
    max_age: int,
    now: int,
) -> Result<(Seq<char>, Seq<char>), Seq<char>> {
    match authorization {
        None => Err("missing authorization"@),
        Some(header) => match text::without_prefix(header, "Nostr "@) {
            None => Err("authorization is not Nostr"@),
            Some(token) => match crypto::base64_bytes(text::trimmed(token)) {
                None => Err("authorization is not base64"@),
                Some(bytes) => match event::event_of(bytes) {
                    None => Err("authorization is no event"@),
                    Some(e) => if !event::event_signed(bytes) {
                        Err("bad auth event signature"@)
                    } else {
                        match event_refusal(e, method, url, body, max_age, now) {
                            Some(why) => Err(why),
                            None => Ok((e.pubkey, e.id)),
                        }
                    },
                },
            },
        },
    }
}

/// Why an event that is read and signed does not authenticate a request, if it
/// does not.
pub fn check_event(
    e: &NostrEvent,
    method: &str,
    url: &str,
    body: &[u8],
    max_age: i64,
    now: i64,
) -> (why: Option<String>)
    ensures
        text::opt_view(why) == event_refusal(e@, method@, url@, body@, max_age as int, now as int),
{
    if e.kind != AUTH_KIND {
        return Some("wrong auth event kind".to_owned());
    }
    let url_named = match find_tag(&e.tags, "u") {
        Some(u) => same(u.as_str(), url),
        None => false,
    };
    if !url_named {
        return Some("auth event url mismatch".to_owned());
    }
    let method_named = match find_tag(&e.tags, "method") {
        Some(m) => same(m.as_str(), method),
        None => false,
    };
    if !method_named {
        return Some("auth event method mismatch".to_owned());
    }
    if body.len() > 0 {
        let digest = sha256(body);
        let expected = hex_encode(digest.as_slice());
        let body_named = match find_tag(&e.tags, "payload") {
            Some(p) => same(p.as_str(), expected.as_str()),
            None => false,
        };
        if !body_named {
            return Some("auth event payload mismatch".to_owned());
        }
    }
    let age: i128 = now as i128 - e.created_at as i128;
    let bound: i128 = max_age as i128;
    if age > bound || age < -bound {
        return Some("auth event expired or post-dated".to_owned());
    }
    None
}

/// Who signed a request: the key and the id of the auth event, or why the
/// request counts as unsigned.
pub fn verify_nip98(
    request: &AuthRequest,
    base_url: &str,
    max_age: i64,
    now: i64,
) -> (r: Result<(String, String), String>)
    ensures
        match (
            r,
            authenticated(
                match request.authorization {
                    Some(s) => Some(s@),
                    None => None,
                },
                request.method@,
                base_url@ + request.path@,
                request.body@,
                max_age as int,
                now as int,
            ),
        ) {
            (Ok((key, id)), Ok((k, i))) => key@ == k && id@ == i,
            (Err(e), Err(f)) => e@ == f,
            _ => false,
        },
        r matches Ok((key, id)) ==> crate::names::is_pubkey_hex(key@),
{
    let header = match request.authorization {
        Some(h) => h,
        None => {
            return Err("missing authorization".to_owned());
        },
    };
    let token = match strip_prefix(header.as_str(), "Nostr ") {
        Some(t) => t,
        None => {
            return Err("authorization is not Nostr".to_owned());
        },
    };
    let bytes = match base64_decode(trim(token)) {
        Some(b) => b,
        None => {
            return Err("authorization is not base64".to_owned());
        },
    };
    let e = match read_event(bytes.as_slice()) {
        Some(e) => e,
        None => {
            return Err("authorization is no event".to_owned());
        },
    };
    if !verify_event(bytes.as_slice()) {
        return Err("bad auth event signature".to_owned());
    }
    let mut url = base_url.to_owned();
    url.append(request.path);
    match check_event(&e, request.method, url.as_str(), request.body, max_age, now) {
        Some(why) => Err(why),
        None => Ok((e.pubkey, e.id)),
    }
}

// ---------------------------------------------------------------------------
// The client's side
// ---------------------------------------------------------------------------

/// The tags of an event that authenticates a request: the URL, the method and,
/// where there is a body, its hash.
pub open spec fn minted(method: Seq<char>, url: Seq<char>, body: Seq<u8>) -> Seq<Seq<Seq<char>>> {
    let named = seq![seq!["u"@, url], seq!["method"@, method]];
    if body.len() > 0 {
        named.push(seq!["payload"@, crypto::hex_text(crypto::sha256_of(body))])
    } else {
        named
    }
}

fn pair(key: &str, value: &str) -> (tag: Vec<String>)
    ensures
        text::views(tag@) == seq![key@, value@],
{
    let mut tag: Vec<String> = Vec::new();
    tag.push(key.to_owned());
    tag.push(value.to_owned());
    assert(text::views(tag@) =~= seq![key@, value@]);
    tag
}

/// The tags of an event that authenticates a request.
pub fn request_tags(method: &str, url: &str, body: &[u8]) -> (tags: Vec<Vec<String>>)
    ensures
        event::tag_views(tags@) == minted(method@, url@, body@),
{
    let mut tags: Vec<Vec<String>> = Vec::new();
    tags.push(pair("u", url));
    tags.push(pair("method", method));
    if body.len() > 0 {
        let digest = sha256(body);
        let payload = hex_encode(digest.as_slice());
        tags.push(pair("payload", payload.as_str()));
    }
    assert(event::tag_views(tags@) =~= minted(method@, url@, body@));
    tags
}

// ---------------------------------------------------------------------------
// Laws
// ---------------------------------------------------------------------------

/// An event of the right kind with the minted tags authenticates the request
/// that they were minted for, as long as it is fresh.
pub proof fn minted_events_authenticate(
    e: event::EventView,
    method: Seq<char>,
    url: Seq<char>,
    body: Seq<u8>,
    max_age: int,
    now: int,
)
    requires
        e.kind == AUTH_KIND,
        e.tags == minted(method, url, body),
        is_fresh(e.created_at, now, max_age),
    ensures
        event_refusal(e, method, url, body, max_age, now) is None,
{
    reveal_strlit("u");
    reveal_strlit("method");
    reveal_strlit("payload");
    assert("u"@.len() == 1 && "method"@.len() == 6 && "payload"@.len() == 7);
    let first = seq!["u"@, url];
    let second = seq!["method"@, method];
    assert(e.tags[0] == first && e.tags[1] == second);
    let rest = e.tags.skip(1);
    assert(rest[0] == second);
    assert(event::tag_value(rest, "method"@) == Some(method));
    let last = rest.skip(1);
    if body.len() > 0 {
        assert(last[0] == e.tags[2]);
        assert(event::tag_value(last, "payload"@) == Some(e.tags[2][1]));
        assert(event::tag_value(rest, "payload"@) == Some(e.tags[2][1]));
    }
}

/// An event authenticates one request only: the method and the URL are those
/// of its tags.
pub proof fn bound_to_one_request(
    authorization: Option<Seq<char>>,
    method_a: Seq<char>,
    url_a: Seq<char>,
    body_a: Seq<u8>,
    method_b: Seq<char>,
    url_b: Seq<char>,
    body_b: Seq<u8>,
    max_age: int,
    now: int,
)
    requires
        authenticated(authorization, method_a, url_a, body_a, max_age, now) is Ok,
        authenticated(authorization, method_b, url_b, body_b, max_age, now) is Ok,
    ensures
        method_a == method_b,
        url_a == url_b,
        body_a.len() > 0 && body_b.len() > 0 ==> crypto::hex_text(crypto::sha256_of(body_a))
            == crypto::hex_text(crypto::sha256_of(body_b)),
{
}

/// An event stops to authenticate once it is older than the greatest age.
pub proof fn goes_stale(
    authorization: Option<Seq<char>>,
    method: Seq<char>,
    url: Seq<char>,
    body: Seq<u8>,
    max_age: int,
    now: int,
    later: int,
)
    requires
        authenticated(authorization, method, url, body, max_age, now) is Ok,
        later > now + 2 * max_age,
    ensures
        authenticated(authorization, method, url, body, max_age, later) is Err,
{
}

/// A request is signed where its header is `Nostr` and a signed event in
/// base64, of the kind for HTTP auth, whose first tags name this URL, this
/// method and, where there is a body, its SHA-256; made at most `max_age`
/// seconds ago or ahead. Then it counts for the event's author.
pub proof fn signed_requests_count(
    header: Seq<char>,
    token: Seq<char>,
    bytes: Seq<u8>,
    e: event::EventView,
    method: Seq<char>,
    url: Seq<char>,
    body: Seq<u8>,
    max_age: int,
    now: int,
)
    requires
        header == "Nostr "@ + token,
        crypto::base64_bytes(text::trimmed(token)) == Some(bytes),
        event::event_of(bytes) == Some(e),
        event::event_signed(bytes),
        e.kind == 27235,
        event::tag_value(e.tags, "u"@) == Some(url),
        event::tag_value(e.tags, "method"@) == Some(method),
        body.len() > 0 ==> event::tag_value(e.tags, "payload"@) == Some(
            crypto::hex_text(crypto::sha256_of(body)),
        ),
        now - max_age <= e.created_at <= now + max_age,
    ensures
        authenticated(Some(header), method, url, body, max_age, now) == Ok::<
            (Seq<char>, Seq<char>),
            Seq<char>,
        >((e.pubkey, e.id)),
{
    text::prefixes_come_off("Nostr "@, token, header);
}

/// No other request is signed: what counts for a key was signed by it, for this
/// method, URL and body, and at most `max_age` seconds away from now.
pub proof fn only_signed_requests_count(
    authorization: Option<Seq<char>>,
    method: Seq<char>,
    url: Seq<char>,
    body: Seq<u8>,
    max_age: int,
    now: int,
) -> (r: (Seq<char>, Seq<u8>, event::EventView))
    requires
        authenticated(authorization, method, url, body, max_age, now) is Ok,
    ensures
        authorization == Some("Nostr "@ + r.0),
        crypto::base64_bytes(text::trimmed(r.0)) == Some(r.1),
        event::event_of(r.1) == Some(r.2),
        event::event_signed(r.1),
        r.2.kind == 27235,
        event::tag_value(r.2.tags, "u"@) == Some(url),
        event::tag_value(r.2.tags, "method"@) == Some(method),
        body.len() > 0 ==> event::tag_value(r.2.tags, "payload"@) == Some(
            crypto::hex_text(crypto::sha256_of(body)),
        ),
        now - max_age <= r.2.created_at <= now + max_age,
        authenticated(authorization, method, url, body, max_age, now) == Ok::<
            (Seq<char>, Seq<char>),
            Seq<char>,
        >((r.2.pubkey, r.2.id)),
{
    let header = authorization->0;
    let token = text::without_prefix(header, "Nostr "@)->0;
    text::prefixes_come_off("Nostr "@, token, header);
    let bytes = crypto::base64_bytes(text::trimmed(token))->0;
    (token, bytes, event::event_of(bytes)->0)
}

/// A minted event names the URL, the method and, where there is a body, its
/// SHA-256, each in a tag of its own.
pub proof fn minted_tags_name_the_request(method: Seq<char>, url: Seq<char>, body: Seq<u8>)
    ensures
        minted(method, url, body).len() == if body.len() > 0 {
            3int
        } else {
            2
        },
        minted(method, url, body)[0] == seq!["u"@, url],
        minted(method, url, body)[1] == seq!["method"@, method],
        body.len() > 0 ==> minted(method, url, body)[2] == seq![
            "payload"@,
            crypto::hex_text(crypto::sha256_of(body)),
        ],
{
}

/// Why a request counts as unsigned is said of the first thing that is wrong:
/// the header, its encoding, the event in it, the event's signature, its kind,
/// the URL, the method, the body's hash, and the time.
pub proof fn unsigned_requests_are_told_why(
    token: Seq<char>,
    other: Seq<char>,
    method: Seq<char>,
    url: Seq<char>,
    body: Seq<u8>,
    max_age: int,
    now: int,
)
    requires
        !"Nostr "@.is_prefix_of(other),
    ensures
        authenticated(None, method, url, body, max_age, now) == Err::<
            (Seq<char>, Seq<char>),
            Seq<char>,
        >("missing authorization"@),
        authenticated(Some(other), method, url, body, max_age, now) == Err::<
            (Seq<char>, Seq<char>),
            Seq<char>,
        >("authorization is not Nostr"@),
        ({
            let r = authenticated(Some("Nostr "@ + token), method, url, body, max_age, now);
            let hash = crypto::hex_text(crypto::sha256_of(body));
            match crypto::base64_bytes(text::trimmed(token)) {
                None => r == Err::<(Seq<char>, Seq<char>), Seq<char>>(
                    "authorization is not base64"@,
                ),
                Some(bytes) => match event::event_of(bytes) {
                    None => r == Err::<(Seq<char>, Seq<char>), Seq<char>>(
                        "authorization is no event"@,
                    ),
                    Some(e) => {
                        let signed = event::event_signed(bytes);
                        let kind = e.kind == 27235;
                        let here = event::tag_value(e.tags, "u"@) == Some(url);
                        let so = event::tag_value(e.tags, "method"@) == Some(method);
                        let this = body.len() == 0 || event::tag_value(e.tags, "payload"@) == Some(
                            hash,
                        );
                        let fresh = now - max_age <= e.created_at <= now + max_age;
                        &&& !signed ==> r == Err::<(Seq<char>, Seq<char>), Seq<char>>(
                            "bad auth event signature"@,
                        )
                        &&& signed && !kind ==> r == Err::<(Seq<char>, Seq<char>), Seq<char>>(
                            "wrong auth event kind"@,
                        )
                        &&& signed && kind && !here ==> r == Err::<
                            (Seq<char>, Seq<char>),
                            Seq<char>,
                        >("auth event url mismatch"@)
                        &&& signed && kind && here && !so ==> r == Err::<
                            (Seq<char>, Seq<char>),
                            Seq<char>,
                        >("auth event method mismatch"@)
                        &&& signed && kind && here && so && !this ==> r == Err::<
                            (Seq<char>, Seq<char>),
                            Seq<char>,
                        >("auth event payload mismatch"@)
                        &&& signed && kind && here && so && this && !fresh ==> r == Err::<
                            (Seq<char>, Seq<char>),
                            Seq<char>,
                        >("auth event expired or post-dated"@)
                    },
                },
            }
        }),
{
    text::prefixes_come_off("Nostr "@, token, other);
}

} // verus!
