//! Rate limits, cooldowns and one-time auth events, kept in memory.
//!
//! Times are in milliseconds on a clock that never goes back.

use crate::auth;
use crate::text::same;
use vstd::prelude::*;
use vstd::string::*;

verus! {

/// Times under keys.
pub struct TimeTable {
    slots: Vec<(String, Vec<u64>)>,
}

/// The place of `key`, or the length where it has none.
spec fn slot_of(slots: Seq<(String, Vec<u64>)>, key: Seq<char>) -> int
    decreases slots.len(),
{
    if slots.len() == 0 || slots[0].0@ == key {
        0
    } else {
        1 + slot_of(slots.skip(1), key)
    }
}

proof fn slot_of_is_first(slots: Seq<(String, Vec<u64>)>, key: Seq<char>, at: int)
    requires
        0 <= at <= slots.len(),
        forall|i: int| 0 <= i < at ==> #[trigger] slots[i].0@ != key,
        at < slots.len() ==> slots[at].0@ == key,
    ensures
        slot_of(slots, key) == at,
    decreases slots.len(),
{
    if at > 0 {
        assert(slots[0].0@ != key);
        let rest = slots.skip(1);
        assert forall|i: int| 0 <= i < at - 1 implies #[trigger] rest[i].0@ != key by {
            assert(rest[i] == slots[i + 1]);
        }
        slot_of_is_first(rest, key, at - 1);
    }
}

proof fn slot_of_bounds(slots: Seq<(String, Vec<u64>)>, key: Seq<char>)
    ensures
        0 <= slot_of(slots, key) <= slots.len(),
        forall|i: int| 0 <= i < slot_of(slots, key) ==> #[trigger] slots[i].0@ != key,
        slot_of(slots, key) < slots.len() ==> slots[slot_of(slots, key)].0@ == key,
    decreases slots.len(),
{
    if slots.len() > 0 && slots[0].0@ != key {
        let rest = slots.skip(1);
        slot_of_bounds(rest, key);
        assert forall|i: int| 0 <= i < slot_of(slots, key) implies #[trigger] slots[i].0@ != key by {
            if i > 0 {
                assert(slots[i] == rest[i - 1]);
            }
        }
    }
}

impl TimeTable {
    /// The times under a key, in the order in which they were added.
    pub closed spec fn times(&self, key: Seq<char>) -> Seq<u64> {
        let at = slot_of(self.slots@, key);
        if 0 <= at < self.slots@.len() {
            self.slots@[at].1@
        } else {
            Seq::empty()
        }
    }

    /// A table without times.
    pub fn new() -> (table: TimeTable)
        ensures
            forall|key: Seq<char>| #[trigger] table.times(key) == Seq::<u64>::empty(),
    {
        TimeTable { slots: Vec::new() }
    }

    fn find(&self, key: &str) -> (at: usize)
        ensures
            at == slot_of(self.slots@, key@),
            at <= self.slots@.len(),
    {
        let mut i: usize = 0;
        while i < self.slots.len()
            invariant
                i <= self.slots.len(),
                forall|j: int| 0 <= j < i ==> #[trigger] self.slots@[j].0@ != key@,
            decreases self.slots.len() - i,
        {
            if same(self.slots[i].0.as_str(), key) {
                proof {
                    slot_of_is_first(self.slots@, key@, i as int);
                }
                return i;
            }
            i = i + 1;
        }
        proof {
            slot_of_is_first(self.slots@, key@, i as int);
        }
        i
    }

    /// The times under a key.
    pub fn get(&self, key: &str) -> (times: Vec<u64>)
        ensures
            times@ == self.times(key@),
    {
        let at: usize = self.find(key);
        if at < self.slots.len() {
            self.slots[at].1.clone()
        } else {
            Vec::new()
        }
    }

    /// Put other times under a key.
    pub fn put(&mut self, key: &str, times: Vec<u64>)
        ensures
            final(self).times(key@) == times@,
            forall|k: Seq<char>| k != key@ ==> #[trigger] final(self).times(k) == old(self).times(k),
    {
        let at: usize = self.find(key);
        let ghost before = self.slots@;
        if at < self.slots.len() {
            self.slots.set(at, (key.to_owned(), times));
        } else {
            self.slots.push((key.to_owned(), times));
        }
        proof {
            let after = self.slots@;
            slot_of_bounds(before, key@);
            assert forall|i: int| 0 <= i < at implies #[trigger] after[i].0@ != key@ by {
                assert(after[i] == before[i]);
            }
            slot_of_is_first(after, key@, at as int);
            assert forall|k: Seq<char>| k != key@ implies #[trigger] self.times(k) == old(
                self,
            ).times(k) by {
                slot_of_bounds(before, k);
                let p = slot_of(before, k);
                if p < before.len() {
                    assert forall|i: int| 0 <= i < p implies #[trigger] after[i].0@ != k by {
                        if i != at {
                            assert(after[i] == before[i]);
                        }
                    }
                    assert(after[p] == before[p]);
                    slot_of_is_first(after, k, p);
                } else {
                    assert forall|i: int| 0 <= i < after.len() implies #[trigger] after[i].0@
                        != k by {
                        if i != at {
                            assert(after[i] == before[i]);
                        }
                    }
                    slot_of_is_first(after, k, after.len() as int);
                }
            }
        }
    }
}

/// Whether a time lies within the window that ends now.
pub open spec fn is_recent(t: u64, now: u64, window: u64) -> bool {
    now - t < window
}

/// The times that lie within the window that ends now.
pub open spec fn recent(times: Seq<u64>, now: u64, window: u64) -> Seq<u64>
    decreases times.len(),
{
    if times.len() == 0 {
        times
    } else {
        let rest = recent(times.drop_last(), now, window);
        if is_recent(times.last(), now, window) {
            rest.push(times.last())
        } else {
            rest
        }
    }
}

/// The requests that count after one more: it counts where fewer than `max` lie
/// within the window.
pub open spec fn counted(past: Seq<u64>, now: u64, max: nat, window: u64) -> Seq<u64> {
    let kept = recent(past, now, window);
    if kept.len() < max {
        kept.push(now)
    } else {
        kept
    }
}

fn keep_recent(times: &Vec<u64>, now: u64, window: u64) -> (kept: Vec<u64>)
    ensures
        kept@ == recent(times@, now, window),
{
    let mut kept: Vec<u64> = Vec::new();
    let mut i: usize = 0;
    while i < times.len()
        invariant
            i <= times.len(),
            kept@ == recent(times@.take(i as int), now, window),
        decreases times.len() - i,
    {
        let t: u64 = times[i];
        i = i + 1;
        assert(times@.take(i as int).drop_last() =~= times@.take(i - 1));
        if t > now || now - t < window {
            kept.push(t);
        }
    }
    assert(times@.take(times@.len() as int) =~= times@);
    kept
}

/// What is remembered of past requests.
pub struct Limits {
    requests: TimeTable,
    operations: TimeTable,
    auth_events: TimeTable,
}

impl Limits {
    /// When requests under this key passed.
    pub closed spec fn requests(&self, key: Seq<char>) -> Seq<u64> {
        self.requests.times(key)
    }

    /// When an operation of this key was last remembered.
    pub closed spec fn operations(&self, key: Seq<char>) -> Seq<u64> {
        self.operations.times(key)
    }

    /// When this auth event was used.
    pub closed spec fn auth_events(&self, id: Seq<char>) -> Seq<u64> {
        self.auth_events.times(id)
    }

    /// Nothing is remembered.
    pub fn new() -> (limits: Limits)
        ensures
            forall|key: Seq<char>| #[trigger] limits.requests(key) == Seq::<u64>::empty(),
            forall|key: Seq<char>| #[trigger] limits.operations(key) == Seq::<u64>::empty(),
            forall|id: Seq<char>| #[trigger] limits.auth_events(id) == Seq::<u64>::empty(),
    {
        Limits {
            requests: TimeTable::new(),
            operations: TimeTable::new(),
            auth_events: TimeTable::new(),
        }
    }

    /// Whether one more request under this key is within the limit of `max`
    /// for each window. One that passes is counted, one that does not is not.
    pub fn allow(&mut self, key: &str, now: u64, max: usize, window: u64) -> (allowed: bool)
        ensures
            allowed == (recent(old(self).requests(key@), now, window).len() < max),
            allowed == (old(self).requests(key@).filter(|t: u64| now - t < window).len() < max),
            final(self).requests(key@) == if allowed {
                old(self).requests(key@).filter(|t: u64| now - t < window).push(now)
            } else {
                old(self).requests(key@).filter(|t: u64| now - t < window)
            },
            final(self).requests(key@) == counted(
                old(self).requests(key@),
                now,
                max as nat,
                window,
            ),
            forall|k: Seq<char>|
                k != key@ ==> #[trigger] final(self).requests(k) == old(self).requests(k),
            forall|k: Seq<char>| #[trigger] final(self).operations(k) == old(self).operations(k),
            forall|id: Seq<char>| #[trigger] final(self).auth_events(id) == old(self).auth_events(id),
    {
        let times = self.requests.get(key);
        proof {
            recent_times_are_young(times@, now, window);
        }
        let mut kept = keep_recent(&times, now, window);
        let allowed = kept.len() < max;
        if allowed {
            kept.push(now);
        }
        self.requests.put(key, kept);
        allowed
    }

    /// Whether an operation of this key was remembered within the window.
    pub fn cooldown_active(&self, key: &str, now: u64, window: u64) -> (active: bool)
        ensures
            active == (recent(self.operations(key@), now, window).len() > 0),
            active == (self.operations(key@).filter(|t: u64| now - t < window).len() > 0),
    {
        let times = self.operations.get(key);
        proof {
            recent_times_are_young(times@, now, window);
        }
        let kept = keep_recent(&times, now, window);
        kept.len() > 0
    }

    /// Remember an operation of this key.
    pub fn record_op(&mut self, key: &str, now: u64)
        ensures
            final(self).operations(key@) == seq![now],
            forall|k: Seq<char>|
                k != key@ ==> #[trigger] final(self).operations(k) == old(self).operations(k),
            forall|k: Seq<char>| #[trigger] final(self).requests(k) == old(self).requests(k),
            forall|id: Seq<char>| #[trigger] final(self).auth_events(id) == old(self).auth_events(id),
    {
        let mut times: Vec<u64> = Vec::new();
        times.push(now);
        assert(times@ =~= seq![now]);
        self.operations.put(key, times);
    }

    /// Whether an auth event is used for the first time within the window. It
    /// is remembered from then on.
    pub fn auth_event_fresh(&mut self, id: &str, now: u64, window: u64) -> (fresh: bool)
        ensures
            fresh == (old(self).auth_events(id@).filter(|t: u64| now - t < window).len() == 0),
            ({
                let past = recent(old(self).auth_events(id@), now, window);
                &&& fresh == (past.len() == 0)
                &&& final(self).auth_events(id@) == if fresh {
                    past.push(now)
                } else {
                    past
                }
            }),
            forall|k: Seq<char>|
                k != id@ ==> #[trigger] final(self).auth_events(k) == old(self).auth_events(k),
            forall|k: Seq<char>| #[trigger] final(self).requests(k) == old(self).requests(k),
            forall|k: Seq<char>| #[trigger] final(self).operations(k) == old(self).operations(k),
    {
        let times = self.auth_events.get(id);
        proof {
            recent_times_are_young(times@, now, window);
        }
        let mut kept = keep_recent(&times, now, window);
        let fresh = kept.len() == 0;
        if fresh {
            kept.push(now);
        }
        self.auth_events.put(id, kept);
        fresh
    }
}

// ---------------------------------------------------------------------------
// Laws
// ---------------------------------------------------------------------------

/// A time within the window is among those that are kept.
proof fn recent_keeps(times: Seq<u64>, now: u64, window: u64, i: int)
    requires
        0 <= i < times.len(),
        is_recent(times[i], now, window),
    ensures
        recent(times, now, window).len() > 0,
    decreases times.len(),
{
    if i < times.len() - 1 {
        assert(times.drop_last()[i] == times[i]);
        recent_keeps(times.drop_last(), now, window, i);
    }
}

/// Never more requests than the limit are counted within a window: where there
/// were not more before a request, there are not more after it.
pub proof fn limit_holds(past: Seq<u64>, now: u64, max: nat, window: u64)
    requires
        past.len() <= max,
    ensures
        counted(past, now, max, window).len() <= max,
{
    recent_shortens(past, now, window);
}

proof fn recent_shortens(times: Seq<u64>, now: u64, window: u64)
    ensures
        recent(times, now, window).len() <= times.len(),
    decreases times.len(),
{
    if times.len() > 0 {
        recent_shortens(times.drop_last(), now, window);
    }
}

/// An auth event cannot be replayed. It was used at `first`, in seconds, and is
/// remembered; where it would authenticate again at a later second, that is
/// within the window of `2 * max_age + 1` seconds in which it is remembered, so
/// it does not count as fresh.
pub proof fn auth_events_count_once(
    authorization: Option<Seq<char>>,
    method: Seq<char>,
    url: Seq<char>,
    body: Seq<u8>,
    max_age: int,
    first: u64,
    later: u64,
    remembered: Seq<u64>,
    window: u64,
)
    requires
        auth::authenticated(authorization, method, url, body, max_age, first as int) is Ok,
        auth::authenticated(authorization, method, url, body, max_age, later as int) is Ok,
        first <= later,
        remembered.contains(first),
        window > 2 * max_age,
    ensures
        recent(remembered, later, window).len() > 0,
{
    let i = choose|i: int| 0 <= i < remembered.len() && remembered[i] == first;
    recent_keeps(remembered, later, window, i);
}

/// The times that count are those less than a window ago, in their order.
pub proof fn recent_times_are_young(times: Seq<u64>, now: u64, window: u64)
    ensures
        recent(times, now, window) == times.filter(|t: u64| now - t < window),
    decreases times.len(),
{
    reveal(Seq::filter);
    if times.len() > 0 {
        recent_times_are_young(times.drop_last(), now, window);
    }
}

/// A request counts exactly where fewer than the limit did in the window before
/// it, and then it is the only one that comes on top.
pub proof fn requests_count_up_to_the_limit(past: Seq<u64>, now: u64, max: nat, window: u64)
    ensures
        ({
            let young = past.filter(|t: u64| now - t < window);
            &&& young.len() < max ==> counted(past, now, max, window) == young.push(now)
            &&& young.len() >= max ==> counted(past, now, max, window) == young
        }),
{
    recent_times_are_young(past, now, window);
}

} // verus!
