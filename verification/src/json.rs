//! JSON documents, as `serde_json` holds them.
//!
//! A document is modelled by its nodes: under each path of steps from the
//! root, the node that the path leads to.

use crate::text;
use vstd::prelude::*;
use vstd::string::*;

verus! {

/// `serde_json::Value`, a JSON document or a part of one.
#[verifier::external_type_specification]
#[verifier::external_body]
pub struct ExValue(serde_json::Value);

/// A step from a node to one below it.
pub enum Step {
    /// To the member of an object that has this key.
    Key(Seq<char>),
    /// To the element of a list that has this place.
    Place(nat),
}

/// What a node is. A number shows its value where it is an integer that fits
/// in 64 bits without a sign.
pub enum Kind {
    Null,
    Flag(bool),
    Number(Option<u64>),
    Text(Seq<char>),
    List,
    Object,
}

/// A node: what it is, and the JSON text that it is written as.
pub struct JsonNode {
    pub kind: Kind,
    pub written: Seq<char>,
}

/// The nodes of a document, each under the path that leads to it.
pub type Nodes = Map<Seq<Step>, JsonNode>;

/// The nodes of a `serde_json::Value`: a path leads where `Value::get`, called
/// with each of its steps in turn, leads.
pub uninterp spec fn value_nodes(v: serde_json::Value) -> Map<Seq<Step>, JsonNode>;

/// The nodes of the document that `serde_json::from_slice` reads from bytes,
/// where it reads one.
pub uninterp spec fn document(bytes: Seq<u8>) -> Option<Map<Seq<Step>, JsonNode>>;

/// The nodes below the one that `step` leads to.
pub open spec fn below(nodes: Nodes, step: Step) -> Nodes {
    Map::new(
        |path: Seq<Step>| nodes.contains_key(seq![step] + path),
        |path: Seq<Step>| nodes[seq![step] + path],
    )
}

/// The nodes at and below the member `key`, where there is one.
pub open spec fn member(nodes: Nodes, key: Seq<char>) -> Option<Nodes> {
    if nodes.contains_key(seq![Step::Key(key)]) {
        Some(below(nodes, Step::Key(key)))
    } else {
        None
    }
}

/// The nodes at and below the element at `place`, where there is one.
pub open spec fn element(nodes: Nodes, place: nat) -> Option<Nodes> {
    if nodes.contains_key(seq![Step::Place(place)]) {
        Some(below(nodes, Step::Place(place)))
    } else {
        None
    }
}

/// The node at the root.
pub open spec fn root(nodes: Nodes) -> JsonNode {
    nodes[Seq::<Step>::empty()]
}

/// The text that the root is, where it is a text.
pub open spec fn text_of(nodes: Nodes) -> Option<Seq<char>> {
    match root(nodes).kind {
        Kind::Text(s) => Some(s),
        _ => None,
    }
}

/// The number that the root is, where it is one that fits.
pub open spec fn number_of(nodes: Nodes) -> Option<u64> {
    match root(nodes).kind {
        Kind::Number(n) => n,
        _ => None,
    }
}

/// The text that the member `key` is, where it is one.
pub open spec fn text_member(nodes: Nodes, key: Seq<char>) -> Option<Seq<char>> {
    match member(nodes, key) {
        Some(m) => text_of(m),
        None => None,
    }
}

/// The number that the member `key` is, where it is one that fits.
pub open spec fn number_member(nodes: Nodes, key: Seq<char>) -> Option<u64> {
    match member(nodes, key) {
        Some(m) => number_of(m),
        None => None,
    }
}

/// A node's kind.
pub enum Node {
    Null,
    Flag(bool),
    Number(Option<u64>),
    Text(String),
    List,
    Object,
}

impl View for Node {
    type V = Kind;

    open spec fn view(&self) -> Kind {
        match self {
            Node::Null => Kind::Null,
            Node::Flag(b) => Kind::Flag(*b),
            Node::Number(n) => Kind::Number(*n),
            Node::Text(s) => Kind::Text(s@),
            Node::List => Kind::List,
            Node::Object => Kind::Object,
        }
    }
}

/// `serde_json::from_slice` into a `Value`. Which bytes are a document, and
/// what its nodes are, is a function of the bytes.
#[verifier::external_body]
pub(crate) fn read(bytes: &[u8]) -> (v: Option<serde_json::Value>)
    ensures
        v is Some <==> document(bytes@) is Some,
        v matches Some(v) ==> document(bytes@) == Some(value_nodes(v)),
{
    serde_json::from_slice(bytes).ok()
}

/// `Value::get` with a key: the member of that name, where the value is an
/// object that has it.
#[verifier::external_body]
pub(crate) fn get<'a>(v: &'a serde_json::Value, key: &str) -> (m: Option<&'a serde_json::Value>)
    ensures
        m is Some <==> value_nodes(*v).contains_key(seq![Step::Key(key@)]),
        m matches Some(m) ==> value_nodes(*m) == below(value_nodes(*v), Step::Key(key@)),
{
    v.get(key)
}

/// `Value::get` with a place: the element there, where the value is an array
/// that is long enough.
#[verifier::external_body]
pub(crate) fn at<'a>(v: &'a serde_json::Value, place: usize) -> (m: Option<&'a serde_json::Value>)
    ensures
        m is Some <==> value_nodes(*v).contains_key(seq![Step::Place(place as nat)]),
        m matches Some(m) ==> value_nodes(*m) == below(value_nodes(*v), Step::Place(place as nat)),
{
    v.get(place)
}

/// The variant of a `Value`, with what it holds; a number by `Number::as_u64`.
#[verifier::external_body]
pub(crate) fn node(v: &serde_json::Value) -> (n: Node)
    ensures
        n@ == value_nodes(*v)[Seq::<Step>::empty()].kind,
{
    match v {
        serde_json::Value::Null => Node::Null,
        serde_json::Value::Bool(b) => Node::Flag(*b),
        serde_json::Value::Number(n) => Node::Number(n.as_u64()),
        serde_json::Value::String(s) => Node::Text(s.clone()),
        serde_json::Value::Array(_) => Node::List,
        serde_json::Value::Object(_) => Node::Object,
    }
}

/// `Value::to_string`: the compact JSON text of a value.
#[verifier::external_body]
pub(crate) fn compact(v: &serde_json::Value) -> (s: String)
    ensures
        s@ == value_nodes(*v)[Seq::<Step>::empty()].written,
{
    v.to_string()
}

/// The text that a value is, where it is one.
pub fn value_text(v: &serde_json::Value) -> (s: Option<String>)
    ensures
        text::opt_view(s) == text_of(value_nodes(*v)),
{
    match node(v) {
        Node::Text(s) => Some(s),
        _ => None,
    }
}

/// The number that a value is, where it is one that fits.
pub fn value_number(v: &serde_json::Value) -> (n: Option<u64>)
    ensures
        n == number_of(value_nodes(*v)),
{
    match node(v) {
        Node::Number(n) => n,
        _ => None,
    }
}

/// The text that the member `key` is, where it is one.
pub fn get_text(v: &serde_json::Value, key: &str) -> (s: Option<String>)
    ensures
        text::opt_view(s) == text_member(value_nodes(*v), key@),
{
    match get(v, key) {
        Some(m) => value_text(m),
        None => None,
    }
}

/// The number that the member `key` is, where it is one that fits.
pub fn get_number(v: &serde_json::Value, key: &str) -> (n: Option<u64>)
    ensures
        n == number_member(value_nodes(*v), key@),
{
    match get(v, key) {
        Some(m) => value_number(m),
        None => None,
    }
}

// ---------------------------------------------------------------------------
// Laws
// ---------------------------------------------------------------------------

/// A member is found by its key, an element by its place, and each is a text or
/// a number where its own node is one.
pub proof fn nodes_are_found(nodes: Nodes, key: Seq<char>, place: nat, path: Seq<Step>)
    ensures
        member(nodes, key) is Some <==> nodes.contains_key(seq![Step::Key(key)]),
        element(nodes, place) is Some <==> nodes.contains_key(seq![Step::Place(place)]),
        member(nodes, key) matches Some(m) ==> (m.contains_key(path) <==> nodes.contains_key(
            seq![Step::Key(key)] + path,
        )),
        member(nodes, key) matches Some(m) ==> m.contains_key(path) ==> m[path] == nodes[seq![
            Step::Key(key),
        ] + path],
        element(nodes, place) matches Some(m) ==> (m.contains_key(path) <==> nodes.contains_key(
            seq![Step::Place(place)] + path,
        )),
        element(nodes, place) matches Some(m) ==> m.contains_key(path) ==> m[path] == nodes[seq![
            Step::Place(place),
        ] + path],
        root(nodes) == nodes[Seq::<Step>::empty()],
        text_of(nodes) == match nodes[Seq::<Step>::empty()].kind {
            Kind::Text(s) => Some(s),
            _ => None,
        },
        number_of(nodes) == match nodes[Seq::<Step>::empty()].kind {
            Kind::Number(n) => n,
            _ => None,
        },
        text_member(nodes, key) == if nodes.contains_key(seq![Step::Key(key)]) {
            match nodes[seq![Step::Key(key)]].kind {
                Kind::Text(s) => Some(s),
                _ => None,
            }
        } else {
            None
        },
        number_member(nodes, key) == if nodes.contains_key(seq![Step::Key(key)]) {
            match nodes[seq![Step::Key(key)]].kind {
                Kind::Number(n) => n,
                _ => None,
            }
        } else {
            None
        },
{
    let e = Seq::<Step>::empty();
    assert(seq![Step::Key(key)] + e =~= seq![Step::Key(key)]);
}

} // verus!
