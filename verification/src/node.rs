//! The Grin node: what is asked of its foreign API, and what its answers say.
//!
//! A query is a function of the answers that have come in: it names the next
//! call to make, or the outcome. Whoever runs it makes the call and asks again
//! with one answer more.

use crate::json;
use crate::json::{at, compact, get, get_number, node, value_number, Node};
use crate::text;
use crate::text::{same, to_lower};
use vstd::prelude::*;
use vstd::string::*;

verus! {

/// Outcome of a kernel lookup.
#[derive(Debug, Clone, Copy, PartialEq, Eq, Structural)]
pub struct KernelResult {
    /// The kernel was found on chain.
    pub found: bool,
    /// Confirmation depth, 0 where the kernel was not found.
    pub confirmations: u64,
    /// The height of the block that holds it.
    pub height: Option<u64>,
}

/// No such kernel on chain.
pub open spec fn absent() -> KernelResult {
    KernelResult { found: false, confirmations: 0, height: None }
}

/// How deep a block at `height` is under the tip: one confirmation, and one
/// more for each block above it. A tip below the block counts as one, and so
/// does a distance whose successor has no 64-bit number.
pub open spec fn depth(height: u64, tip: u64) -> int {
    if tip < height || tip - height == u64::MAX {
        1
    } else {
        tip - height + 1
    }
}

/// A kernel that is on chain. Where a height cannot be read, it counts as
/// confirmed once.
pub open spec fn present(height: Option<u64>, tip: Option<u64>) -> KernelResult {
    match (height, tip) {
        (Some(h), Some(t)) => KernelResult {
            found: true,
            confirmations: depth(h, t) as u64,
            height: Some(h),
        },
        _ => KernelResult { found: true, confirmations: 1, height },
    }
}

impl KernelResult {
    /// No such kernel on chain.
    pub fn not_found() -> (r: KernelResult)
        ensures
            r == absent(),
    {
        KernelResult { found: false, confirmations: 0, height: None }
    }

    /// A kernel that is on chain, with its depth under the tip.
    pub fn on_chain(height: Option<u64>, tip: Option<u64>) -> (r: KernelResult)
        ensures
            r == present(height, tip),
    {
        match (height, tip) {
            (Some(h), Some(t)) => {
                let confirmations: u64 = if t < h || t - h == u64::MAX {
                    1
                } else {
                    t - h + 1
                };
                KernelResult { found: true, confirmations, height: Some(h) }
            },
            (h, _) => KernelResult { found: true, confirmations: 1, height: h },
        }
    }
}

// ---------------------------------------------------------------------------
// Answers
// ---------------------------------------------------------------------------

/// What an answer of the foreign API holds, out of its envelope: the `Ok` of
/// its `result`, the bare `result`, nothing, or the error that it reports.
pub open spec fn unwrapped(method: Seq<char>, nodes: json::Nodes) -> Result<
    Option<json::Nodes>,
    Seq<char>,
> {
    let error = json::member(nodes, "error"@);
    if error is Some && json::root(error->0).kind != json::Kind::Null {
        Err(method + " error: "@ + json::root(error->0).written)
    } else {
        match json::member(nodes, "result"@) {
            None => Ok(None),
            Some(result) => match json::member(result, "Err"@) {
                Some(e) => Err(method + " Err: "@ + json::root(e).written),
                None => match json::member(result, "Ok"@) {
                    Some(inner) => Ok(Some(inner)),
                    None => Ok(Some(result)),
                },
            },
        }
    }
}

/// What a call brought: the bytes of the answer, or why none came.
pub type Answer = Result<Vec<u8>, String>;

/// What a call brought, out of its envelope.
pub open spec fn answered(method: Seq<char>, answer: Answer) -> Result<
    Option<json::Nodes>,
    Seq<char>,
> {
    match answer {
        Err(e) => Err(e@),
        Ok(bytes) => match json::document(bytes@) {
            None => Err(method + " decode: error decoding response body"@),
            Some(nodes) => unwrapped(method, nodes),
        },
    }
}

/// What `get_kernel` says: no kernel, or its height where that can be read.
/// The answer is a list whose second element is the height, or an object.
pub open spec fn kernel_height(result: Option<json::Nodes>) -> Option<Option<u64>> {
    match result {
        None => None,
        Some(nodes) => if json::root(nodes).kind == json::Kind::Null {
            None
        } else {
            let listed = match json::element(nodes, 1) {
                Some(e) => json::number_of(e),
                None => None,
            };
            if listed is Some {
                Some(listed)
            } else {
                Some(json::number_member(nodes, "height"@))
            }
        },
    }
}

/// What `get_tip` says: the height of the chain, where it can be read.
pub open spec fn tip_of(result: Option<json::Nodes>) -> Option<u64> {
    match result {
        None => None,
        Some(nodes) => json::number_member(nodes, "height"@),
    }
}

fn unwrap<'a>(method: &str, value: &'a serde_json::Value) -> (r: Result<
    Option<&'a serde_json::Value>,
    String,
>)
    ensures
        match (r, unwrapped(method@, json::value_nodes(*value))) {
            (Ok(Some(v)), Ok(Some(nodes))) => json::value_nodes(*v) == nodes,
            (Ok(None), Ok(None)) => true,
            (Err(e), Err(f)) => e@ == f,
            _ => false,
        },
{
    match get(value, "error") {
        Some(error) => match node(error) {
            Node::Null => {},
            _ => {
                let mut e = method.to_owned();
                e.append(" error: ");
                let shown = compact(error);
                e.append(shown.as_str());
                return Err(e);
            },
        },
        None => {},
    }
    let result = match get(value, "result") {
        Some(r) => r,
        None => {
            return Ok(None);
        },
    };
    match get(result, "Err") {
        Some(error) => {
            let mut e = method.to_owned();
            e.append(" Err: ");
            let shown = compact(error);
            e.append(shown.as_str());
            Err(e)
        },
        None => match get(result, "Ok") {
            Some(inner) => Ok(Some(inner)),
            None => Ok(Some(result)),
        },
    }
}

fn decode_failed(method: &str) -> (e: String)
    ensures
        e@ == method@ + " decode: error decoding response body"@,
{
    let mut e = method.to_owned();
    e.append(" decode: error decoding response body");
    e
}

/// What a `get_kernel` call says.
fn read_kernel(answer: &Answer) -> (r: Result<Option<Option<u64>>, String>)
    ensures
        match (r, answered("get_kernel"@, *answer)) {
            (Ok(h), Ok(result)) => h == kernel_height(result),
            (Err(e), Err(f)) => e@ == f,
            _ => false,
        },
{
    let bytes = match answer {
        Ok(b) => b,
        Err(e) => {
            return Err(e.clone());
        },
    };
    let value = match json::read(bytes.as_slice()) {
        Some(v) => v,
        None => {
            return Err(decode_failed("get_kernel"));
        },
    };
    let kernel = match unwrap("get_kernel", &value) {
        Ok(Some(k)) => k,
        Ok(None) => {
            return Ok(None);
        },
        Err(e) => {
            return Err(e);
        },
    };
    match node(kernel) {
        Node::Null => {
            return Ok(None);
        },
        _ => {},
    }
    let listed = match at(kernel, 1) {
        Some(e) => value_number(e),
        None => None,
    };
    match listed {
        Some(h) => Ok(Some(Some(h))),
        None => Ok(Some(get_number(kernel, "height"))),
    }
}

/// What a `get_tip` call says.
fn read_tip(answer: &Answer) -> (r: Result<Option<u64>, String>)
    ensures
        match (r, answered("get_tip"@, *answer)) {
            (Ok(h), Ok(result)) => h == tip_of(result),
            (Err(e), Err(f)) => e@ == f,
            _ => false,
        },
{
    let bytes = match answer {
        Ok(b) => b,
        Err(e) => {
            return Err(e.clone());
        },
    };
    let value = match json::read(bytes.as_slice()) {
        Some(v) => v,
        None => {
            return Err(decode_failed("get_tip"));
        },
    };
    match unwrap("get_tip", &value) {
        Ok(Some(tip)) => Ok(get_number(tip, "height")),
        Ok(None) => Ok(None),
        Err(e) => Err(e),
    }
}

// ---------------------------------------------------------------------------
// Queries
// ---------------------------------------------------------------------------

/// A call of the foreign API. The parameters of `get_kernel` are the excess
/// and two nulls, those of `get_tip` are none.
pub enum Call<S> {
    GetKernel { endpoint: S, excess: S },
    GetTip { endpoint: S },
}

/// Where a query stands: a call to make, or its outcome.
pub enum Query<S, T> {
    Make(Call<S>),
    Done(Result<T, S>),
}

/// A query over character sequences.
pub open spec fn query_view<T>(q: Query<String, T>) -> Query<Seq<char>, T> {
    match q {
        Query::Make(Call::GetKernel { endpoint, excess }) => Query::Make(
            Call::GetKernel { endpoint: endpoint@, excess: excess@ },
        ),
        Query::Make(Call::GetTip { endpoint }) => Query::Make(Call::GetTip { endpoint: endpoint@ }),
        Query::Done(Ok(t)) => Query::Done(Ok(t)),
        Query::Done(Err(e)) => Query::Done(Err(e@)),
    }
}

/// A kernel lookup: the endpoints in turn, each asked for the kernel and, where
/// it has one, for the tip. The first that answers decides; where none does,
/// the last complaint is the outcome.
pub open spec fn kernel_query(
    endpoints: Seq<Seq<char>>,
    excess: Seq<char>,
    answers: Seq<Answer>,
    complaint: Seq<char>,
) -> Query<Seq<char>, KernelResult>
    decreases endpoints.len(),
{
    if endpoints.len() == 0 {
        Query::Done(Err(complaint))
    } else if answers.len() == 0 {
        Query::Make(Call::GetKernel { endpoint: endpoints[0], excess })
    } else {
        match answered("get_kernel"@, answers[0]) {
            Err(e) => kernel_query(endpoints.skip(1), excess, answers.skip(1), e),
            Ok(result) => match kernel_height(result) {
                None => Query::Done(Ok(absent())),
                Some(height) => if answers.len() == 1 {
                    Query::Make(Call::GetTip { endpoint: endpoints[0] })
                } else {
                    match answered("get_tip"@, answers[1]) {
                        Err(e) => kernel_query(endpoints.skip(1), excess, answers.skip(2), e),
                        Ok(tip) => Query::Done(Ok(present(height, tip_of(tip)))),
                    }
                },
            },
        }
    }
}

/// A tip lookup: the endpoints in turn, until one names a height.
pub open spec fn tip_query(
    endpoints: Seq<Seq<char>>,
    answers: Seq<Answer>,
    complaint: Seq<char>,
) -> Query<Seq<char>, u64>
    decreases endpoints.len(),
{
    if endpoints.len() == 0 {
        Query::Done(Err(complaint))
    } else if answers.len() == 0 {
        Query::Make(Call::GetTip { endpoint: endpoints[0] })
    } else {
        match answered("get_tip"@, answers[0]) {
            Err(e) => tip_query(endpoints.skip(1), answers.skip(1), e),
            Ok(result) => match tip_of(result) {
                Some(h) => Query::Done(Ok(h)),
                None => tip_query(
                    endpoints.skip(1),
                    answers.skip(1),
                    "get_tip: height missing"@,
                ),
            },
        }
    }
}

/// The foreign-API client: an ordered list of endpoints, the next tried where
/// one fails.
#[derive(Debug, Clone)]
pub struct NodeClient {
    pub endpoints: Vec<String>,
}

impl NodeClient {
    /// A client of the given endpoints.
    pub fn new(endpoints: Vec<String>) -> (client: NodeClient)
        ensures
            client.endpoints@ == endpoints@,
    {
        NodeClient { endpoints }
    }

    /// Look up a kernel by its excess: the next call, or the outcome.
    pub fn kernel(&self, excess_hex: &str, answers: &Vec<Answer>) -> (q: Query<String, KernelResult>)
        ensures
            query_view(q) == kernel_query(
                text::views(self.endpoints@),
                excess_hex@,
                answers@,
                "no node endpoints configured"@,
            ),
    {
        let ghost all = text::views(self.endpoints@);
        let mut complaint = "no node endpoints configured".to_owned();
        let mut i: usize = 0;
        let mut k: usize = 0;
        assert(all.skip(0) =~= all);
        assert(answers@.skip(0) =~= answers@);
        while i < self.endpoints.len()
            invariant
                i <= self.endpoints.len(),
                k <= answers.len(),
                all == text::views(self.endpoints@),
                kernel_query(all, excess_hex@, answers@, "no node endpoints configured"@)
                    == kernel_query(
                    all.skip(i as int),
                    excess_hex@,
                    answers@.skip(k as int),
                    complaint@,
                ),
            decreases self.endpoints.len() - i,
        {
            let ghost rest = all.skip(i as int);
            let ghost left = answers@.skip(k as int);
            assert(rest[0] == self.endpoints@[i as int]@);
            if k == answers.len() {
                return Query::Make(
                    Call::GetKernel {
                        endpoint: self.endpoints[i].clone(),
                        excess: excess_hex.to_owned(),
                    },
                );
            }
            assert(left[0] == answers@[k as int]);
            assert(rest.skip(1) =~= all.skip(i + 1));
            assert(left.skip(1) =~= answers@.skip(k + 1));
            match read_kernel(&answers[k]) {
                Err(e) => {
                    complaint = e;
                    k = k + 1;
                },
                Ok(None) => {
                    return Query::Done(Ok(KernelResult::not_found()));
                },
                Ok(Some(height)) => {
                    if k + 1 == answers.len() {
                        return Query::Make(Call::GetTip { endpoint: self.endpoints[i].clone() });
                    }
                    assert(left[1] == answers@[k + 1]);
                    assert(left.skip(2) =~= answers@.skip(k + 2));
                    match read_tip(&answers[k + 1]) {
                        Err(e) => {
                            complaint = e;
                            k = k + 2;
                        },
                        Ok(tip) => {
                            return Query::Done(Ok(KernelResult::on_chain(height, tip)));
                        },
                    }
                },
            }
            i = i + 1;
        }
        Query::Done(Err(complaint))
    }

    /// Look up the height of the chain: the next call, or the outcome.
    pub fn tip_height(&self, answers: &Vec<Answer>) -> (q: Query<String, u64>)
        ensures
            query_view(q) == tip_query(
                text::views(self.endpoints@),
                answers@,
                "no node endpoints configured"@,
            ),
    {
        let ghost all = text::views(self.endpoints@);
        let mut complaint = "no node endpoints configured".to_owned();
        let mut i: usize = 0;
        assert(all.skip(0) =~= all);
        assert(answers@.skip(0) =~= answers@);
        while i < self.endpoints.len()
            invariant
                i <= self.endpoints.len(),
                i <= answers.len(),
                all == text::views(self.endpoints@),
                tip_query(all, answers@, "no node endpoints configured"@) == tip_query(
                    all.skip(i as int),
                    answers@.skip(i as int),
                    complaint@,
                ),
            decreases self.endpoints.len() - i,
        {
            let ghost rest = all.skip(i as int);
            let ghost left = answers@.skip(i as int);
            assert(rest[0] == self.endpoints@[i as int]@);
            if i == answers.len() {
                return Query::Make(Call::GetTip { endpoint: self.endpoints[i].clone() });
            }
            assert(left[0] == answers@[i as int]);
            assert(rest.skip(1) =~= all.skip(i + 1));
            assert(left.skip(1) =~= answers@.skip(i + 1));
            match read_tip(&answers[i]) {
                Err(e) => {
                    complaint = e;
                },
                Ok(Some(h)) => {
                    return Query::Done(Ok(h));
                },
                Ok(None) => {
                    complaint = "get_tip: height missing".to_owned();
                },
            }
            i = i + 1;
        }
        Query::Done(Err(complaint))
    }
}

// ---------------------------------------------------------------------------
// Laws
// ---------------------------------------------------------------------------

/// A kernel that a lookup finds has at least one confirmation, and one that it
/// does not find has none.
pub proof fn found_is_confirmed(
    endpoints: Seq<Seq<char>>,
    excess: Seq<char>,
    answers: Seq<Answer>,
    complaint: Seq<char>,
)
    ensures
        kernel_query(endpoints, excess, answers, complaint) matches Query::Done(Ok(k))
            ==> (k.found <==> k.confirmations >= 1),
        kernel_query(endpoints, excess, answers, complaint) matches Query::Done(Ok(k)) ==> !k.found
            ==> k == absent(),
    decreases endpoints.len(),
{
    if endpoints.len() > 0 && answers.len() > 0 {
        match answered("get_kernel"@, answers[0]) {
            Err(e) => {
                found_is_confirmed(endpoints.skip(1), excess, answers.skip(1), e);
            },
            Ok(_) => {
                if answers.len() > 1 {
                    match answered("get_tip"@, answers[1]) {
                        Err(e) => {
                            found_is_confirmed(endpoints.skip(1), excess, answers.skip(2), e);
                        },
                        Ok(_) => {},
                    }
                }
            },
        }
    }
}

/// A kernel lookup makes at most two calls for each endpoint.
pub proof fn kernel_query_ends(
    endpoints: Seq<Seq<char>>,
    excess: Seq<char>,
    answers: Seq<Answer>,
    complaint: Seq<char>,
)
    requires
        answers.len() >= 2 * endpoints.len(),
    ensures
        kernel_query(endpoints, excess, answers, complaint) is Done,
    decreases endpoints.len(),
{
    if endpoints.len() > 0 {
        match answered("get_kernel"@, answers[0]) {
            Err(e) => {
                kernel_query_ends(endpoints.skip(1), excess, answers.skip(1), e);
            },
            Ok(_) => {
                match answered("get_tip"@, answers[1]) {
                    Err(e) => {
                        kernel_query_ends(endpoints.skip(1), excess, answers.skip(2), e);
                    },
                    Ok(_) => {},
                }
            },
        }
    }
}

/// A tip lookup makes at most one call for each endpoint.
pub proof fn tip_query_ends(
    endpoints: Seq<Seq<char>>,
    answers: Seq<Answer>,
    complaint: Seq<char>,
)
    requires
        answers.len() >= endpoints.len(),
    ensures
        tip_query(endpoints, answers, complaint) is Done,
    decreases endpoints.len(),
{
    if endpoints.len() > 0 {
        match answered("get_tip"@, answers[0]) {
            Err(e) => {
                tip_query_ends(endpoints.skip(1), answers.skip(1), e);
            },
            Ok(_) => {
                tip_query_ends(
                    endpoints.skip(1),
                    answers.skip(1),
                    "get_tip: height missing"@,
                );
            },
        }
    }
}

/// The number that the path leads to, where it leads to one that fits.
pub open spec fn number_at(nodes: json::Nodes, path: Seq<json::Step>) -> Option<u64> {
    if nodes.contains_key(path) {
        match nodes[path].kind {
            json::Kind::Number(n) => n,
            _ => None,
        }
    } else {
        None
    }
}

/// Whether an answer reports no error and holds its outcome at `inner`: the `Ok`
/// of its `result` where that has one, else the `result` itself.
pub open spec fn answers_at(nodes: json::Nodes, inner: Seq<json::Step>) -> bool {
    let result = json::Step::Key("result"@);
    let error = seq![json::Step::Key("error"@)];
    &&& nodes.contains_key(error) ==> nodes[error].kind == json::Kind::Null
    &&& nodes.contains_key(seq![result])
    &&& !nodes.contains_key(seq![result, json::Step::Key("Err"@)])
    &&& inner == if nodes.contains_key(seq![result, json::Step::Key("Ok"@)]) {
        seq![result, json::Step::Key("Ok"@)]
    } else {
        seq![result]
    }
}

/// What the envelope holds is what stands below that place.
proof fn envelope_opens(method: Seq<char>, nodes: json::Nodes, inner: Seq<json::Step>) -> (sub:
    json::Nodes)
    requires
        answers_at(nodes, inner),
    ensures
        unwrapped(method, nodes) == Ok::<Option<json::Nodes>, Seq<char>>(Some(sub)),
        forall|path: Seq<json::Step>| #[trigger]
            sub.contains_key(path) <==> nodes.contains_key(inner + path),
        forall|path: Seq<json::Step>|
            sub.contains_key(path) ==> #[trigger] sub[path] == nodes[inner + path],
        json::root(sub) == nodes[inner],
{
    let e = Seq::<json::Step>::empty();
    let result = json::Step::Key("result"@);
    let error = json::Step::Key("error"@);
    let ok = json::Step::Key("Ok"@);
    let bad = json::Step::Key("Err"@);
    assert(seq![error] + e =~= seq![error]);
    assert(seq![result] + seq![bad] =~= seq![result, bad]);
    assert(seq![result] + seq![ok] =~= seq![result, ok]);
    assert(seq![result] + e =~= seq![result]);
    assert(seq![ok] + e =~= seq![ok]);
    let r = json::below(nodes, result);
    if nodes.contains_key(seq![result, ok]) {
        let sub = json::below(r, ok);
        assert forall|path: Seq<json::Step>| seq![result] + (#[trigger] (seq![ok] + path)) == inner
            + path by {
            assert(seq![result] + (seq![ok] + path) =~= inner + path);
        }
        assert forall|path: Seq<json::Step>| #[trigger] sub.contains_key(path)
            <==> nodes.contains_key(inner + path) by {
            assert(seq![result] + (seq![ok] + path) == inner + path);
        }
        assert forall|path: Seq<json::Step>| sub.contains_key(path) implies #[trigger] sub[path]
            == nodes[inner + path] by {
            assert(seq![result] + (seq![ok] + path) == inner + path);
        }
        assert(inner + e =~= inner);
        sub
    } else {
        r
    }
}

/// The depth of a payment is counted from the tip: for a kernel at the height
/// `h` under the tip `t`, as an endpoint names them, the lookup finds it at `h`
/// with `t - h + 1` confirmations, the block itself and those above it. So `n`
/// confirmations take a tip of at least `h + n - 1`.
pub proof fn depth_is_counted_from_the_tip(
    endpoints: Seq<Seq<char>>,
    excess: Seq<char>,
    answers: Seq<Answer>,
    complaint: Seq<char>,
    k: json::Nodes,
    at_k: Seq<json::Step>,
    t: json::Nodes,
    at_t: Seq<json::Step>,
    h: u64,
    tip: u64,
    n: u64,
)
    requires
        endpoints.len() > 0,
        answers.len() >= 2,
        answers[0] matches Ok(a) && json::document(a@) == Some(k),
        answers[1] matches Ok(b) && json::document(b@) == Some(t),
        answers_at(k, at_k),
        answers_at(t, at_t),
        k[at_k].kind != json::Kind::Null,
        number_at(k, at_k + seq![json::Step::Place(1)]) == Some(h) || (number_at(
            k,
            at_k + seq![json::Step::Place(1)],
        ) is None && number_at(k, at_k + seq![json::Step::Key("height"@)]) == Some(h)),
        number_at(t, at_t + seq![json::Step::Key("height"@)]) == Some(tip),
    ensures
        kernel_query(endpoints, excess, answers, complaint) matches Query::Done(Ok(r)) && {
            &&& r.found
            &&& r.height == Some(h)
            &&& h <= tip && tip - h < u64::MAX ==> r.confirmations == tip - h + 1
            &&& tip < h ==> r.confirmations == 1
            &&& h <= tip && n > 1 && r.confirmations >= n ==> tip >= h + n - 1
        },
{
    let e = Seq::<json::Step>::empty();
    let sub = envelope_opens("get_kernel"@, k, at_k);
    let top = envelope_opens("get_tip"@, t, at_t);
    let place = json::Step::Place(1);
    let height = json::Step::Key("height"@);
    assert(seq![place] + e =~= seq![place]);
    assert(seq![height] + e =~= seq![height]);
    assert(sub.contains_key(seq![place]) <==> k.contains_key(at_k + seq![place]));
    assert(sub.contains_key(seq![height]) <==> k.contains_key(at_k + seq![height]));
    assert(top.contains_key(seq![height]));
    assert(top[seq![height]] == t[at_t + seq![height]]);
    assert(json::number_member(top, "height"@) == Some(tip));
    if k.contains_key(at_k + seq![place]) {
        assert(sub[seq![place]] == k[at_k + seq![place]]);
    }
    if k.contains_key(at_k + seq![height]) {
        assert(sub[seq![height]] == k[at_k + seq![height]]);
    }
    assert(kernel_height(Some(sub)) == Some(Some(h)));
}

/// Where a height cannot be read, the kernel's or the tip's, a kernel that is
/// there counts as confirmed once.
pub proof fn unreadable_heights_count_once(
    endpoints: Seq<Seq<char>>,
    excess: Seq<char>,
    answers: Seq<Answer>,
    complaint: Seq<char>,
    k: json::Nodes,
    at_k: Seq<json::Step>,
    t: json::Nodes,
    at_t: Seq<json::Step>,
)
    requires
        endpoints.len() > 0,
        answers.len() >= 2,
        answers[0] matches Ok(a) && json::document(a@) == Some(k),
        answers[1] matches Ok(b) && json::document(b@) == Some(t),
        answers_at(k, at_k),
        answers_at(t, at_t),
        k[at_k].kind != json::Kind::Null,
        number_at(t, at_t + seq![json::Step::Key("height"@)]) is None || (number_at(
            k,
            at_k + seq![json::Step::Place(1)],
        ) is None && number_at(k, at_k + seq![json::Step::Key("height"@)]) is None),
    ensures
        kernel_query(endpoints, excess, answers, complaint) matches Query::Done(Ok(r)) && r.found
            && r.confirmations == 1,
{
    let e = Seq::<json::Step>::empty();
    let sub = envelope_opens("get_kernel"@, k, at_k);
    let top = envelope_opens("get_tip"@, t, at_t);
    let place = json::Step::Place(1);
    let height = json::Step::Key("height"@);
    assert(seq![place] + e =~= seq![place]);
    assert(seq![height] + e =~= seq![height]);
    assert(sub.contains_key(seq![place]) <==> k.contains_key(at_k + seq![place]));
    assert(sub.contains_key(seq![height]) <==> k.contains_key(at_k + seq![height]));
    assert(top.contains_key(seq![height]) <==> t.contains_key(at_t + seq![height]));
    if t.contains_key(at_t + seq![height]) {
        assert(top[seq![height]] == t[at_t + seq![height]]);
    }
    if k.contains_key(at_k + seq![place]) {
        assert(sub[seq![place]] == k[at_k + seq![place]]);
    }
    if k.contains_key(at_k + seq![height]) {
        assert(sub[seq![height]] == k[at_k + seq![height]]);
    }
}

/// An endpoint whose answer reports an error is passed over with that error, be
/// it asked for the kernel or for the tip.
pub proof fn reporting_nodes_are_passed_over(
    endpoints: Seq<Seq<char>>,
    excess: Seq<char>,
    answers: Seq<Answer>,
    complaint: Seq<char>,
    nodes: json::Nodes,
)
    requires
        endpoints.len() > 0,
        answers.len() > 0,
        answers[0] matches Ok(a) && json::document(a@) == Some(nodes),
        nodes.contains_key(seq![json::Step::Key("error"@)]),
        nodes[seq![json::Step::Key("error"@)]].kind != json::Kind::Null,
    ensures
        kernel_query(endpoints, excess, answers, complaint) == kernel_query(
            endpoints.skip(1),
            excess,
            answers.skip(1),
            "get_kernel"@ + " error: "@ + nodes[seq![json::Step::Key("error"@)]].written,
        ),
        tip_query(endpoints, answers, complaint) == tip_query(
            endpoints.skip(1),
            answers.skip(1),
            "get_tip"@ + " error: "@ + nodes[seq![json::Step::Key("error"@)]].written,
        ),
{
    reported_errors_are_failures("get_kernel"@, nodes);
    reported_errors_are_failures("get_tip"@, nodes);
}

/// A kernel that an endpoint does not have is not found, and confirmed by
/// nothing: where the outcome is `null` or there is none.
pub proof fn missing_kernels_are_not_found(
    endpoints: Seq<Seq<char>>,
    excess: Seq<char>,
    answers: Seq<Answer>,
    complaint: Seq<char>,
    k: json::Nodes,
    at_k: Seq<json::Step>,
)
    requires
        endpoints.len() > 0,
        answers.len() > 0,
        answers[0] matches Ok(a) && json::document(a@) == Some(k),
        answers_at(k, at_k),
        k[at_k].kind == json::Kind::Null,
    ensures
        kernel_query(endpoints, excess, answers, complaint) matches Query::Done(Ok(r)) && !r.found
            && r.confirmations == 0 && r.height is None,
{
    let sub = envelope_opens("get_kernel"@, k, at_k);
}

/// Where a height cannot be read, a kernel that is there counts as confirmed
/// once, and where both can, by the distance between them.
pub proof fn depth_of_a_kernel(h: u64, tip: u64, height: Option<u64>)
    ensures
        present(height, None).found && present(height, None).confirmations == 1,
        present(height, None).height == height,
        present(None, Some(tip)).found && present(None, Some(tip)).confirmations == 1,
        present(None, Some(tip)).height is None,
        present(Some(h), Some(tip)).found && present(Some(h), Some(tip)).height == Some(h),
        h <= tip && tip - h < u64::MAX ==> present(Some(h), Some(tip)).confirmations == tip - h + 1,
        tip <= h || tip - h == u64::MAX ==> present(Some(h), Some(tip)).confirmations == 1,
        !absent().found && absent().confirmations == 0 && absent().height is None,
{
}

/// The endpoints are tried in turn, each asked for the kernel and then for the
/// tip; one that fails is passed over with its complaint, and the last
/// complaint is the outcome where none is left.
pub proof fn nodes_are_tried_in_turn(
    endpoints: Seq<Seq<char>>,
    excess: Seq<char>,
    answers: Seq<Answer>,
    complaint: Seq<char>,
)
    ensures
        endpoints.len() == 0 ==> kernel_query(endpoints, excess, answers, complaint) == Query::Done(
            Err::<KernelResult, Seq<char>>(complaint),
        ),
        endpoints.len() == 0 ==> tip_query(endpoints, answers, complaint) == Query::Done(
            Err::<u64, Seq<char>>(complaint),
        ),
        endpoints.len() > 0 && answers.len() == 0 ==> kernel_query(
            endpoints,
            excess,
            answers,
            complaint,
        ) == Query::<Seq<char>, KernelResult>::Make(
            Call::GetKernel { endpoint: endpoints[0], excess },
        ),
        endpoints.len() > 0 && answers.len() == 0 ==> tip_query(endpoints, answers, complaint)
            == Query::<Seq<char>, u64>::Make(Call::GetTip { endpoint: endpoints[0] }),
        endpoints.len() > 0 && answers.len() > 0 ==> match answers[0] {
            Err(e) => {
                &&& kernel_query(endpoints, excess, answers, complaint) == kernel_query(
                    endpoints.skip(1),
                    excess,
                    answers.skip(1),
                    e@,
                )
                &&& tip_query(endpoints, answers, complaint) == tip_query(
                    endpoints.skip(1),
                    answers.skip(1),
                    e@,
                )
            },
            Ok(bytes) => json::document(bytes@) is None ==> {
                &&& kernel_query(endpoints, excess, answers, complaint) == kernel_query(
                    endpoints.skip(1),
                    excess,
                    answers.skip(1),
                    "get_kernel"@ + " decode: error decoding response body"@,
                )
                &&& tip_query(endpoints, answers, complaint) == tip_query(
                    endpoints.skip(1),
                    answers.skip(1),
                    "get_tip"@ + " decode: error decoding response body"@,
                )
            },
        },
{
}

/// An endpoint that has the kernel is asked for the tip too; where that fails,
/// the next endpoint is asked from the start.
pub proof fn both_answers_come_from_one_node(
    endpoints: Seq<Seq<char>>,
    excess: Seq<char>,
    answers: Seq<Answer>,
    complaint: Seq<char>,
    k: json::Nodes,
    at_k: Seq<json::Step>,
)
    requires
        endpoints.len() > 0,
        answers.len() > 0,
        answers[0] matches Ok(a) && json::document(a@) == Some(k),
        answers_at(k, at_k),
        k[at_k].kind != json::Kind::Null,
    ensures
        answers.len() == 1 ==> kernel_query(endpoints, excess, answers, complaint) == Query::<
            Seq<char>,
            KernelResult,
        >::Make(Call::GetTip { endpoint: endpoints[0] }),
        answers.len() > 1 ==> (answers[1] matches Err(e) ==> kernel_query(
            endpoints,
            excess,
            answers,
            complaint,
        ) == kernel_query(endpoints.skip(1), excess, answers.skip(2), e@)),
{
    let sub = envelope_opens("get_kernel"@, k, at_k);
}

/// The height of the chain is the one that the first endpoint names which names
/// any.
pub proof fn tips_are_read(
    endpoints: Seq<Seq<char>>,
    answers: Seq<Answer>,
    complaint: Seq<char>,
    t: json::Nodes,
    at_t: Seq<json::Step>,
    tip: u64,
)
    requires
        endpoints.len() > 0,
        answers.len() > 0,
        answers[0] matches Ok(a) && json::document(a@) == Some(t),
        answers_at(t, at_t),
    ensures
        number_at(t, at_t + seq![json::Step::Key("height"@)]) == Some(tip) ==> tip_query(
            endpoints,
            answers,
            complaint,
        ) == Query::<Seq<char>, u64>::Done(Ok(tip)),
        number_at(t, at_t + seq![json::Step::Key("height"@)]) is None ==> tip_query(
            endpoints,
            answers,
            complaint,
        ) == tip_query(endpoints.skip(1), answers.skip(1), "get_tip: height missing"@),
{
    let e = Seq::<json::Step>::empty();
    let top = envelope_opens("get_tip"@, t, at_t);
    let height = json::Step::Key("height"@);
    assert(seq![height] + e =~= seq![height]);
    assert(top.contains_key(seq![height]) <==> t.contains_key(at_t + seq![height]));
    if top.contains_key(seq![height]) {
        assert(top[seq![height]] == t[at_t + seq![height]]);
    }
}

/// An answer that reports an error, in its envelope or in its result, is none.
pub proof fn reported_errors_are_failures(method: Seq<char>, nodes: json::Nodes)
    ensures
        nodes.contains_key(seq![json::Step::Key("error"@)]) && nodes[seq![json::Step::Key("error"@)]].kind
            != json::Kind::Null ==> unwrapped(method, nodes) == Err::<Option<json::Nodes>, Seq<char>>(
            method + " error: "@ + nodes[seq![json::Step::Key("error"@)]].written,
        ),
        (nodes.contains_key(seq![json::Step::Key("error"@)]) ==> nodes[seq![json::Step::Key("error"@)]].kind
            == json::Kind::Null) && nodes.contains_key(seq![json::Step::Key("result"@)])
            && nodes.contains_key(seq![json::Step::Key("result"@), json::Step::Key("Err"@)])
            ==> unwrapped(method, nodes) == Err::<Option<json::Nodes>, Seq<char>>(
            method + " Err: "@ + nodes[seq![json::Step::Key("result"@), json::Step::Key("Err"@)]].written,
        ),
        (nodes.contains_key(seq![json::Step::Key("error"@)]) ==> nodes[seq![json::Step::Key("error"@)]].kind
            == json::Kind::Null) && !nodes.contains_key(seq![json::Step::Key("result"@)])
            ==> unwrapped(method, nodes) == Ok::<Option<json::Nodes>, Seq<char>>(None),
{
    let e = Seq::<json::Step>::empty();
    let result = json::Step::Key("result"@);
    let bad = json::Step::Key("Err"@);
    assert(seq![json::Step::Key("error"@)] + e =~= seq![json::Step::Key("error"@)]);
    assert(seq![bad] + e =~= seq![bad]);
    assert(seq![result] + seq![bad] =~= seq![result, bad]);
}

/// A call is seen as it is, and so is the outcome of a query.
pub proof fn query_views_show_the_texts(endpoint: String, excess: String, r: KernelResult, e: String)
    ensures
        query_view::<KernelResult>(Query::Make(Call::GetKernel { endpoint, excess })) == Query::<
            Seq<char>,
            KernelResult,
        >::Make(Call::GetKernel { endpoint: endpoint@, excess: excess@ }),
        query_view::<KernelResult>(Query::Make(Call::GetTip { endpoint })) == Query::<
            Seq<char>,
            KernelResult,
        >::Make(Call::GetTip { endpoint: endpoint@ }),
        query_view::<KernelResult>(Query::Done(Ok(r))) == Query::<Seq<char>, KernelResult>::Done(
            Ok(r),
        ),
        query_view::<KernelResult>(Query::Done(Err(e))) == Query::<Seq<char>, KernelResult>::Done(
            Err(e@),
        ),
{
}

// ---------------------------------------------------------------------------
// A scripted chain
// ---------------------------------------------------------------------------

/// The chain queries that a transfer claim needs.
pub trait ChainSource {
    /// Look up a kernel by its excess, with its confirmation depth.
    fn kernel(&self, excess_hex: &str) -> (r: Result<KernelResult, String>);

    /// The height of the chain.
    fn tip_height(&self) -> (r: Result<u64, String>);
}

/// A chain in memory, for tests: a tip that can be set, and kernels with their
/// heights and depths. An excess that was never set is not on chain.
pub struct TestChainSource {
    tip: u64,
    kernels: Vec<(String, (u64, u64))>,
    tip_fails: bool,
}

/// What a [`TestChainSource`] holds: the tip, the height and depth under each
/// excess in lower case, and whether asking for the tip fails.
pub struct ChainView {
    pub tip: u64,
    pub kernels: Map<Seq<char>, (u64, u64)>,
    pub tip_fails: bool,
}

/// The last pair that stands under each key.
spec fn last_under(list: Seq<(String, (u64, u64))>) -> Map<Seq<char>, (u64, u64)>
    decreases list.len(),
{
    if list.len() == 0 {
        Map::empty()
    } else {
        last_under(list.drop_last()).insert(list.last().0@, list.last().1)
    }
}

impl View for TestChainSource {
    type V = ChainView;

    closed spec fn view(&self) -> ChainView {
        ChainView {
            tip: self.tip,
            kernels: last_under(self.kernels@),
            tip_fails: self.tip_fails,
        }
    }
}

impl TestChainSource {
    /// An empty chain of the given height.
    pub fn new(tip: u64) -> (chain: TestChainSource)
        ensures
            chain@ == (ChainView { tip, kernels: Map::empty(), tip_fails: false }),
    {
        TestChainSource { tip, kernels: Vec::new(), tip_fails: false }
    }

    /// Record a kernel as on chain at `height` with `confirmations` depth.
    pub fn set_kernel(&mut self, excess_hex: &str, height: u64, confirmations: u64)
        ensures
            final(self)@ == (ChainView {
                kernels: old(self)@.kernels.insert(text::lower(excess_hex@), (height, confirmations)),
                ..old(self)@
            }),
    {
        let ghost before = self.kernels@;
        self.kernels.push((to_lower(excess_hex), (height, confirmations)));
        assert(self.kernels@.drop_last() =~= before);
    }

    /// Move the height of the chain.
    pub fn set_tip(&mut self, tip: u64)
        ensures
            final(self)@ == (ChainView { tip, ..old(self)@ }),
    {
        self.tip = tip;
    }

    /// Make asking for the tip fail, or work again.
    pub fn fail_tip(&mut self, fail: bool)
        ensures
            final(self)@ == (ChainView { tip_fails: fail, ..old(self)@ }),
    {
        self.tip_fails = fail;
    }
}

/// What a scripted chain says of a kernel.
pub open spec fn scripted_kernel(chain: ChainView, excess: Seq<char>) -> KernelResult {
    let key = text::lower(excess);
    if chain.kernels.contains_key(key) {
        KernelResult {
            found: true,
            confirmations: chain.kernels[key].1,
            height: Some(chain.kernels[key].0),
        }
    } else {
        absent()
    }
}

impl ChainSource for TestChainSource {
    fn kernel(&self, excess_hex: &str) -> (r: Result<KernelResult, String>)
        ensures
            r == Ok::<KernelResult, String>(scripted_kernel(self@, excess_hex@)),
    {
        let key = to_lower(excess_hex);
        let mut i: usize = self.kernels.len();
        assert(self.kernels@.take(i as int) =~= self.kernels@);
        while i > 0
            invariant
                i <= self.kernels.len(),
                key@ == text::lower(excess_hex@),
                last_under(self.kernels@).contains_key(key@) <==> last_under(
                    self.kernels@.take(i as int),
                ).contains_key(key@),
                last_under(self.kernels@).contains_key(key@) ==> last_under(self.kernels@)[key@]
                    == last_under(self.kernels@.take(i as int))[key@],
            decreases i,
        {
            let ghost head = self.kernels@.take(i as int);
            assert(head.drop_last() =~= self.kernels@.take(i - 1));
            assert(head.last() == self.kernels@[i - 1]);
            let entry = &self.kernels[i - 1];
            if same(entry.0.as_str(), key.as_str()) {
                return Ok(
                    KernelResult {
                        found: true,
                        confirmations: entry.1.1,
                        height: Some(entry.1.0),
                    },
                );
            }
            i = i - 1;
        }
        Ok(KernelResult::not_found())
    }

    fn tip_height(&self) -> (r: Result<u64, String>)
        ensures
            match r {
                Ok(h) => !self@.tip_fails && h == self@.tip,
                Err(e) => self@.tip_fails && e@ == "test node tip unreachable"@,
            },
    {
        if self.tip_fails {
            return Err("test node tip unreachable".to_owned());
        }
        Ok(self.tip)
    }
}

} // verus!
