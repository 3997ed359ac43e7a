//! Nostr events, as the `nostr` crate reads them.

use crate::names;
use crate::text;
use crate::text::same;
use vstd::prelude::*;
use vstd::string::*;

verus! {

/// What is read of a Nostr event.
pub struct NostrEvent {
    /// The event's id, in lower-case hexadecimal.
    pub id: String,
    /// The author's public key, in lower-case hexadecimal.
    pub pubkey: String,
    /// When the event was made, in seconds since the epoch.
    pub created_at: u64,
    pub kind: u16,
    /// The tags: a list of texts each.
    pub tags: Vec<Vec<String>>,
    /// The event written as JSON.
    pub json: String,
}

/// What a [`NostrEvent`] holds.
pub struct EventView {
    pub id: Seq<char>,
    pub pubkey: Seq<char>,
    pub created_at: u64,
    pub kind: u16,
    pub tags: Seq<Seq<Seq<char>>>,
    pub json: Seq<char>,
}

/// Tags over character sequences.
pub open spec fn tag_views(tags: Seq<Vec<String>>) -> Seq<Seq<Seq<char>>> {
    tags.map_values(|t: Vec<String>| text::views(t@))
}

impl View for NostrEvent {
    type V = EventView;

    open spec fn view(&self) -> EventView {
        EventView {
            id: self.id@,
            pubkey: self.pubkey@,
            created_at: self.created_at,
            kind: self.kind,
            tags: tag_views(self.tags@),
            json: self.json@,
        }
    }
}

/// The event that bytes of JSON hold, where they hold one.
pub uninterp spec fn event_of(bytes: Seq<u8>) -> Option<EventView>;

/// Whether bytes of JSON hold an event whose id is the hash of its fields and
/// whose signature over that id holds under its author's key.
pub uninterp spec fn event_signed(bytes: Seq<u8>) -> bool;

/// `nostr::Event::from_json`, which checks no signature. Which bytes hold an
/// event, and what it says, is a function of the bytes; the id and the key are
/// 64 lower-case hexadecimal digits each.
#[verifier::external_body]
pub(crate) fn read_event(bytes: &[u8]) -> (r: Option<NostrEvent>)
    ensures
        r is Some <==> event_of(bytes@) is Some,
        r matches Some(e) ==> event_of(bytes@) == Some(e@),
        r matches Some(e) ==> names::is_pubkey_hex(e.id@) && names::is_pubkey_hex(e.pubkey@),
{
    let event = <nostr::Event as nostr::JsonUtil>::from_json(bytes).ok()?;
    Some(NostrEvent {
        id: event.id.to_hex(),
        pubkey: event.pubkey.to_hex(),
        created_at: event.created_at.as_secs(),
        kind: event.kind.as_u16(),
        tags: event.tags.iter().map(|t| t.as_slice().to_vec()).collect(),
        json: nostr::JsonUtil::as_json(&event),
    })
}

/// `nostr::Event::verify`, the check of the id and of the signature, on the
/// event that the bytes hold.
#[verifier::external_body]
pub(crate) fn verify_event(bytes: &[u8]) -> (signed: bool)
    ensures
        signed == event_signed(bytes@),
{
    match <nostr::Event as nostr::JsonUtil>::from_json(bytes) {
        Ok(event) => event.verify().is_ok(),
        Err(_) => false,
    }
}

/// The second text of the first tag that has `key` for its first text and has
/// a second.
pub open spec fn tag_value(tags: Seq<Seq<Seq<char>>>, key: Seq<char>) -> Option<Seq<char>>
    decreases tags.len(),
{
    if tags.len() == 0 {
        None
    } else if tags[0].len() > 1 && tags[0][0] == key {
        Some(tags[0][1])
    } else {
        tag_value(tags.skip(1), key)
    }
}

/// The value of the first tag of that name.
pub fn find_tag<'a>(tags: &'a Vec<Vec<String>>, key: &str) -> (v: Option<&'a String>)
    ensures
        match v {
            Some(s) => tag_value(tag_views(tags@), key@) == Some(s@),
            None => tag_value(tag_views(tags@), key@) is None,
        },
{
    let ghost all = tag_views(tags@);
    let mut i: usize = 0;
    assert(all.skip(0) =~= all);
    while i < tags.len()
        invariant
            i <= tags.len(),
            all == tag_views(tags@),
            tag_value(all, key@) == tag_value(all.skip(i as int), key@),
        decreases tags.len() - i,
    {
        let tag = &tags[i];
        assert(all.skip(i as int)[0] == text::views(tag@));
        assert(all.skip(i as int).skip(1) =~= all.skip(i + 1));
        if tag.len() > 1 && same(tag[0].as_str(), key) {
            return Some(&tag[1]);
        }
        i = i + 1;
    }
    None
}

// ---------------------------------------------------------------------------
// Laws
// ---------------------------------------------------------------------------

/// A tag is found by its name: the first with that name and a value decides,
/// whatever comes behind it, and those with another name or without a value do
/// not count.
pub proof fn first_tags_count(
    before: Seq<Seq<Seq<char>>>,
    tag: Seq<Seq<char>>,
    after: Seq<Seq<Seq<char>>>,
    key: Seq<char>,
)
    requires
        forall|i: int| 0 <= i < before.len() ==> (#[trigger] before[i]).len() < 2 || before[i][0] != key,
        tag.len() >= 2,
        tag[0] == key,
    ensures
        tag_value(before + seq![tag] + after, key) == Some(tag[1]),
        tag_value(before, key) is None,
    decreases before.len(),
{
    let all = before + seq![tag] + after;
    if before.len() == 0 {
        assert(all[0] == tag);
    } else {
        assert(all[0] == before[0]);
        let rest = before.skip(1);
        assert forall|i: int| 0 <= i < rest.len() implies (#[trigger] rest[i]).len() < 2 || rest[i][0]
            != key by {
            assert(rest[i] == before[i + 1]);
        }
        assert(all.skip(1) =~= rest + seq![tag] + after);
        first_tags_count(rest, tag, after, key);
    }
}

/// An event is seen with the fields that it has.
pub proof fn event_views_show_the_fields(e: NostrEvent)
    ensures
        e@.id == e.id@,
        e@.pubkey == e.pubkey@,
        e@.created_at == e.created_at,
        e@.kind == e.kind,
        e@.json == e.json@,
        e@.tags.len() == e.tags@.len(),
        forall|i: int, j: int|
            0 <= i < e.tags@.len() && 0 <= j < e.tags@[i]@.len() ==> #[trigger] e@.tags[i][j]
                == e.tags@[i]@[j]@,
        forall|i: int|
            0 <= i < e.tags@.len() ==> (#[trigger] e@.tags[i]).len() == e.tags@[i]@.len(),
{
}

} // verus!
