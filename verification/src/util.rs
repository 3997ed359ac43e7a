//! Small cross-cutting helpers.

use vstd::prelude::*;
use vstd::string::*;

verus! {

/// The client's address out of the `X-Real-IP` header: `unknown` where there
/// is none.
pub open spec fn ip_of(real_ip: Option<String>) -> Seq<char> {
    match real_ip {
        Some(ip) => ip@,
        None => "unknown"@,
    }
}

/// The client's address, taken from `X-Real-IP`. All rate limiting keys off
/// it, so the reverse proxy must set it from the real peer address.
pub fn client_ip(real_ip: &Option<String>) -> (ip: String)
    ensures
        ip@ == ip_of(*real_ip),
{
    match real_ip {
        Some(ip) => ip.clone(),
        None => "unknown".to_owned(),
    }
}

/// `SystemTime::now`, as the seconds since the epoch: none where the clock
/// stands before it. It depends on the machine's clock, so nothing is said of
/// it.
#[verifier::external_body]
fn system_seconds() -> (secs: Option<u64>) {
    let since = std::time::SystemTime::now().duration_since(std::time::UNIX_EPOCH);
    since.ok().map(|d| d.as_secs())
}

/// Seconds since the epoch as the authority counts them: a clock before the
/// epoch counts as 0.
pub open spec fn clock_value(secs: Option<u64>) -> int {
    match secs {
        Some(n) => crate::db::stored(n),
        None => 0,
    }
}

/// Seconds since the epoch as the authority counts them.
pub fn clock_seconds(secs: Option<u64>) -> (now: i64)
    ensures
        now == clock_value(secs),
{
    match secs {
        Some(n) => crate::db::to_stored(n),
        None => 0,
    }
}

/// The time, in seconds since the epoch.
pub fn unix_now() -> (now: i64)
    ensures
        exists|secs: Option<u64>| now == clock_value(secs),
{
    let secs = system_seconds();
    clock_seconds(secs)
}

/// Byte equality that looks at every byte whatever it has seen before, for
/// comparing signatures. Only the lengths decide how long it takes.
pub fn ct_eq(a: &[u8], b: &[u8]) -> (equal: bool)
    ensures
        equal == (a@ == b@),
{
    if a.len() != b.len() {
        return false;
    }
    let mut diff: u8 = 0;
    let mut i: usize = 0;
    while i < a.len()
        invariant
            i <= a.len(),
            a.len() == b.len(),
            diff == 0 <==> forall|j: int| 0 <= j < i ==> a@[j] == b@[j],
        decreases a.len() - i,
    {
        let x: u8 = a[i];
        let y: u8 = b[i];
        assert(((diff | (x ^ y)) == 0) == (diff == 0 && x == y)) by (bit_vector);
        diff = diff | (x ^ y);
        i = i + 1;
    }
    assert(diff == 0 ==> a@ =~= b@);
    diff == 0
}

// ---------------------------------------------------------------------------
// Laws
// ---------------------------------------------------------------------------

/// The client's address is the one that the proxy names, and the clock counts
/// seconds as they are, from zero where it stands before the epoch.
pub proof fn addresses_and_seconds(ip: String, n: u64)
    ensures
        ip_of(Some(ip)) == ip@,
        ip_of(None) == "unknown"@,
        n < 0x8000_0000_0000_0000 ==> clock_value(Some(n)) == n,
        clock_value(None) == 0,
{
}

} // verus!
