//! What the authority answers.

use crate::amount;
use crate::amount::nanogrin_to_grin;
use crate::json;
use vstd::prelude::*;
use vstd::string::*;
use vstd::utf8::*;

verus! {

/// What an answer says. Texts are `S`.
pub enum Body<S> {
    /// Something was refused, for the reason given.
    Error(S),
    /// The buyer already holds this name.
    HasName(S),
    /// An offer was lodged.
    Lodged { offer_id: S, name: S, expires_at: i64 },
    /// An offer: the seller's event as JSON, and its status.
    Offer { event_json: S, status: S },
    /// An offer was revoked.
    Revoked { offer_id: S },
    /// A name changed hands.
    Claimed { name: S, nip05: S, pubkey: S },
    /// Whether a key has paid for writing.
    Paid { pubkey: S, paid: bool },
    /// A resource is paid for.
    Granted { resource: S, pubkey: S },
    /// Payment is due.
    PaymentRequired { resource: S, invoice_id: S, pay_url: S, price_nanogrin: u64 },
    /// The notification was taken.
    Acknowledged,
}

/// An answer: the HTTP status and what it says.
pub struct Reply<S> {
    pub status: u16,
    pub body: Body<S>,
}

/// A body over character sequences.
pub open spec fn body_view(b: Body<String>) -> Body<Seq<char>> {
    match b {
        Body::Error(e) => Body::Error(e@),
        Body::HasName(n) => Body::HasName(n@),
        Body::Lodged { offer_id, name, expires_at } => Body::Lodged {
            offer_id: offer_id@,
            name: name@,
            expires_at,
        },
        Body::Offer { event_json, status } => Body::Offer {
            event_json: event_json@,
            status: status@,
        },
        Body::Revoked { offer_id } => Body::Revoked { offer_id: offer_id@ },
        Body::Claimed { name, nip05, pubkey } => Body::Claimed {
            name: name@,
            nip05: nip05@,
            pubkey: pubkey@,
        },
        Body::Paid { pubkey, paid } => Body::Paid { pubkey: pubkey@, paid },
        Body::Granted { resource, pubkey } => Body::Granted {
            resource: resource@,
            pubkey: pubkey@,
        },
        Body::PaymentRequired { resource, invoice_id, pay_url, price_nanogrin } =>
            Body::PaymentRequired {
            resource: resource@,
            invoice_id: invoice_id@,
            pay_url: pay_url@,
            price_nanogrin,
        },
        Body::Acknowledged => Body::Acknowledged,
    }
}

impl View for Reply<String> {
    type V = Reply<Seq<char>>;

    open spec fn view(&self) -> Reply<Seq<char>> {
        Reply { status: self.status, body: body_view(self.body) }
    }
}

/// A refusal over character sequences.
pub open spec fn refusal(status: u16, why: Seq<char>) -> Reply<Seq<char>> {
    Reply { status, body: Body::Error(why) }
}

/// A refusal.
pub fn refuse(status: u16, why: &str) -> (r: Reply<String>)
    ensures
        r@ == refusal(status, why@),
{
    Reply { status, body: Body::Error(why.to_owned()) }
}

// ---------------------------------------------------------------------------
// The JSON of an answer
// ---------------------------------------------------------------------------

/// The value of a member of an answer's JSON object.
pub enum Field<S> {
    Text(S),
    Signed(i64),
    Unsigned(u64),
    Flag(bool),
    /// The text of a JSON document, which stands as a value.
    Document(S),
}

/// A member of an answer's JSON object.
pub type Member<S> = (S, Field<S>);

/// A field over character sequences.
pub open spec fn field_view(f: Field<String>) -> Field<Seq<char>> {
    match f {
        Field::Text(s) => Field::Text(s@),
        Field::Signed(n) => Field::Signed(n),
        Field::Unsigned(n) => Field::Unsigned(n),
        Field::Flag(b) => Field::Flag(b),
        Field::Document(s) => Field::Document(s@),
    }
}

/// Members over character sequences.
pub open spec fn member_views(list: Seq<(String, Field<String>)>) -> Seq<
    (Seq<char>, Field<Seq<char>>),
> {
    list.map_values(|m: (String, Field<String>)| (m.0@, field_view(m.1)))
}

/// A text that is to stand as a JSON value: as it is where it is a document,
/// else `null`.
pub open spec fn as_document(s: Seq<char>) -> Seq<char> {
    if json::document(encode_utf8(s)) is Some {
        s
    } else {
        "null"@
    }
}

/// The members of the JSON object of an answer.
pub open spec fn members_of(b: Body<Seq<char>>) -> Seq<(Seq<char>, Field<Seq<char>>)> {
    match b {
        Body::Error(e) => seq![("error"@, Field::Text(e))],
        Body::HasName(name) => seq![
            ("error"@, Field::Text("pubkey already has a name"@)),
            ("name"@, Field::Text(name)),
        ],
        Body::Lodged { offer_id, name, expires_at } => seq![
            ("offer_id"@, Field::Text(offer_id)),
            ("name"@, Field::Text(name)),
            ("expires_at"@, Field::Signed(expires_at)),
        ],
        Body::Offer { event_json, status } => seq![
            ("offer"@, Field::Document(as_document(event_json))),
            ("status"@, Field::Text(status)),
        ],
        Body::Revoked { offer_id } => seq![
            ("offer_id"@, Field::Text(offer_id)),
            ("status"@, Field::Text("revoked"@)),
        ],
        Body::Claimed { name, nip05, pubkey } => seq![
            ("name"@, Field::Text(name)),
            ("nip05"@, Field::Text(nip05)),
            ("pubkey"@, Field::Text(pubkey)),
        ],
        Body::Paid { pubkey, paid } => seq![
            ("pubkey"@, Field::Text(pubkey)),
            ("paid"@, Field::Flag(paid)),
        ],
        Body::Granted { resource, pubkey } => seq![
            ("resource"@, Field::Text(resource)),
            ("pubkey"@, Field::Text(pubkey)),
            ("paid"@, Field::Flag(true)),
        ],
        Body::PaymentRequired { resource, invoice_id, pay_url, price_nanogrin } => seq![
            ("error"@, Field::Text("payment_required"@)),
            ("resource"@, Field::Text(resource)),
            ("invoice_id"@, Field::Text(invoice_id)),
            ("pay_url"@, Field::Text(pay_url)),
            ("price_grin"@, Field::Text(amount::grin_text(price_nanogrin as nat))),
            ("price_nanogrin"@, Field::Unsigned(price_nanogrin)),
            ("currency"@, Field::Text("GRIN"@)),
        ],
        Body::Acknowledged => seq![("ok"@, Field::Flag(true))],
    }
}

fn document(s: &str) -> (d: String)
    ensures
        d@ == as_document(s@),
{
    match json::read(s.as_bytes()) {
        Some(_) => s.to_owned(),
        None => "null".to_owned(),
    }
}

fn text_member(key: &str, value: &str) -> (m: (String, Field<String>))
    ensures
        m.0@ == key@,
        field_view(m.1) == Field::Text(value@),
{
    (key.to_owned(), Field::Text(value.to_owned()))
}

/// The members of a 402 answer: everything a client needs to pay and retry.
pub fn payment_required_json(
    resource: &str,
    invoice_id: &str,
    pay_url: &str,
    price_nanogrin: u64,
) -> (list: Vec<(String, Field<String>)>)
    ensures
        member_views(list@) == members_of(
            Body::PaymentRequired {
                resource: resource@,
                invoice_id: invoice_id@,
                pay_url: pay_url@,
                price_nanogrin,
            },
        ),
{
    let price = nanogrin_to_grin(price_nanogrin);
    let list = vec![
        text_member("error", "payment_required"),
        text_member("resource", resource),
        text_member("invoice_id", invoice_id),
        text_member("pay_url", pay_url),
        text_member("price_grin", price.as_str()),
        ("price_nanogrin".to_owned(), Field::Unsigned(price_nanogrin)),
        text_member("currency", "GRIN"),
    ];
    assert(member_views(list@) =~= members_of(
        Body::PaymentRequired {
            resource: resource@,
            invoice_id: invoice_id@,
            pay_url: pay_url@,
            price_nanogrin,
        },
    ));
    list
}

impl Body<String> {
    /// The members of the JSON object of the answer.
    pub fn members(&self) -> (list: Vec<(String, Field<String>)>)
        ensures
            member_views(list@) == members_of(body_view(*self)),
    {
        let list = match self {
            Body::Error(e) => vec![text_member("error", e.as_str())],
            Body::HasName(name) => vec![
                text_member("error", "pubkey already has a name"),
                text_member("name", name.as_str()),
            ],
            Body::Lodged { offer_id, name, expires_at } => vec![
                text_member("offer_id", offer_id.as_str()),
                text_member("name", name.as_str()),
                ("expires_at".to_owned(), Field::Signed(*expires_at)),
            ],
            Body::Offer { event_json, status } => vec![
                ("offer".to_owned(), Field::Document(document(event_json.as_str()))),
                text_member("status", status.as_str()),
            ],
            Body::Revoked { offer_id } => vec![
                text_member("offer_id", offer_id.as_str()),
                text_member("status", "revoked"),
            ],
            Body::Claimed { name, nip05, pubkey } => vec![
                text_member("name", name.as_str()),
                text_member("nip05", nip05.as_str()),
                text_member("pubkey", pubkey.as_str()),
            ],
            Body::Paid { pubkey, paid } => vec![
                text_member("pubkey", pubkey.as_str()),
                ("paid".to_owned(), Field::Flag(*paid)),
            ],
            Body::Granted { resource, pubkey } => vec![
                text_member("resource", resource.as_str()),
                text_member("pubkey", pubkey.as_str()),
                ("paid".to_owned(), Field::Flag(true)),
            ],
            Body::PaymentRequired { resource, invoice_id, pay_url, price_nanogrin } => {
                return payment_required_json(
                    resource.as_str(),
                    invoice_id.as_str(),
                    pay_url.as_str(),
                    *price_nanogrin,
                );
            },
            Body::Acknowledged => vec![("ok".to_owned(), Field::Flag(true))],
        };
        assert(member_views(list@) =~= members_of(body_view(*self)));
        list
    }
}

// ---------------------------------------------------------------------------
// Laws
// ---------------------------------------------------------------------------

/// A refusal is an object with the reason under `error`.
pub proof fn refusals_name_the_reason(status: u16, why: Seq<char>)
    ensures
        refusal(status, why).status == status,
        members_of(refusal(status, why).body) == seq![("error"@, Field::Text(why))],
{
}

/// A demand for payment names the resource, the invoice, the page to pay on and
/// the price, in nanogrin and in GRIN; both are the same amount.
pub proof fn demands_name_the_price(
    resource: Seq<char>,
    invoice_id: Seq<char>,
    pay_url: Seq<char>,
    price: u64,
)
    ensures
        ({
            let m = members_of(
                Body::PaymentRequired { resource, invoice_id, pay_url, price_nanogrin: price },
            );
            &&& m.len() == 7
            &&& m[0] == ("error"@, Field::Text("payment_required"@))
            &&& m[1] == ("resource"@, Field::Text(resource))
            &&& m[2] == ("invoice_id"@, Field::Text(invoice_id))
            &&& m[3] == ("pay_url"@, Field::Text(pay_url))
            &&& m[4].0 == "price_grin"@
            &&& m[4].1 matches Field::Text(shown) && amount::amount(shown) == Ok::<nat, Seq<char>>(
                price as nat,
            )
            &&& m[5] == ("price_nanogrin"@, Field::<Seq<char>>::Unsigned(price))
            &&& m[6] == ("currency"@, Field::Text("GRIN"@))
        }),
{
    amount::amount_round_trip(price);
}

/// What the other answers hold, member by member.
pub proof fn answers_hold_their_members(
    a: Seq<char>,
    b: Seq<char>,
    c: Seq<char>,
    n: i64,
    flag: bool,
)
    ensures
        members_of(Body::HasName(a)) == seq![
            ("error"@, Field::Text("pubkey already has a name"@)),
            ("name"@, Field::Text(a)),
        ],
        members_of(Body::Lodged { offer_id: a, name: b, expires_at: n }) == seq![
            ("offer_id"@, Field::Text(a)),
            ("name"@, Field::Text(b)),
            ("expires_at"@, Field::Signed(n)),
        ],
        members_of(Body::Revoked { offer_id: a }) == seq![
            ("offer_id"@, Field::Text(a)),
            ("status"@, Field::Text("revoked"@)),
        ],
        members_of(Body::Claimed { name: a, nip05: b, pubkey: c }) == seq![
            ("name"@, Field::Text(a)),
            ("nip05"@, Field::Text(b)),
            ("pubkey"@, Field::Text(c)),
        ],
        members_of(Body::Paid { pubkey: a, paid: flag }) == seq![
            ("pubkey"@, Field::Text(a)),
            ("paid"@, Field::Flag(flag)),
        ],
        members_of(Body::Granted { resource: a, pubkey: b }) == seq![
            ("resource"@, Field::Text(a)),
            ("pubkey"@, Field::Text(b)),
            ("paid"@, Field::Flag(true)),
        ],
        members_of(Body::Acknowledged) == seq![("ok"@, Field::<Seq<char>>::Flag(true))],
        json::document(encode_utf8(a)) is Some ==> members_of(
            Body::Offer { event_json: a, status: b },
        ) == seq![("offer"@, Field::Document(a)), ("status"@, Field::Text(b))],
        json::document(encode_utf8(a)) is None ==> members_of(
            Body::Offer { event_json: a, status: b },
        ) == seq![("offer"@, Field::Document("null"@)), ("status"@, Field::Text(b))],
{
}

/// An answer is seen as it is.
pub proof fn reply_views_show_the_fields(
    status: u16,
    a: String,
    b: String,
    c: String,
    n: i64,
    m: u64,
    flag: bool,
)
    ensures
        (Reply { status, body: Body::Error(a) })@ == (Reply { status, body: Body::Error(a@) }),
        body_view(Body::HasName(a)) == Body::HasName(a@),
        body_view(Body::Lodged { offer_id: a, name: b, expires_at: n }) == (Body::Lodged {
            offer_id: a@,
            name: b@,
            expires_at: n,
        }),
        body_view(Body::Offer { event_json: a, status: b }) == (Body::Offer {
            event_json: a@,
            status: b@,
        }),
        body_view(Body::Revoked { offer_id: a }) == (Body::Revoked { offer_id: a@ }),
        body_view(Body::Claimed { name: a, nip05: b, pubkey: c }) == (Body::Claimed {
            name: a@,
            nip05: b@,
            pubkey: c@,
        }),
        body_view(Body::Paid { pubkey: a, paid: flag }) == (Body::Paid { pubkey: a@, paid: flag }),
        body_view(Body::Granted { resource: a, pubkey: b }) == (Body::Granted {
            resource: a@,
            pubkey: b@,
        }),
        body_view(
            Body::PaymentRequired { resource: a, invoice_id: b, pay_url: c, price_nanogrin: m },
        ) == (Body::PaymentRequired {
            resource: a@,
            invoice_id: b@,
            pay_url: c@,
            price_nanogrin: m,
        }),
        body_view(Body::Acknowledged) == Body::<Seq<char>>::Acknowledged,
        field_view(Field::Text(a)) == Field::Text(a@),
        field_view(Field::Document(a)) == Field::Document(a@),
        field_view(Field::Signed(n)) == Field::<Seq<char>>::Signed(n),
        field_view(Field::Unsigned(m)) == Field::<Seq<char>>::Unsigned(m),
        field_view(Field::Flag(flag)) == Field::<Seq<char>>::Flag(flag),
{
}

} // verus!
