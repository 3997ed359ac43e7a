//! A payment backend in memory, for tests.

use crate::digits;
use crate::digits::u64_text;
use crate::paid::{Invoice, PayBackend};
use crate::text;
use crate::text::same;
use vstd::prelude::*;
use vstd::string::*;

verus! {

/// A backend that numbers its invoices and reports the status it was told.
pub struct MockPay {
    statuses: Vec<(String, String)>,
    created: Vec<String>,
    fail: bool,
    counter: u64,
}

/// What a [`MockPay`] holds.
pub struct MockView {
    /// The status of each invoice.
    pub statuses: Map<Seq<char>, Seq<char>>,
    /// The order references of the invoices, in the order of their creation.
    pub created: Seq<Seq<char>>,
    /// Whether every call fails.
    pub fail: bool,
    /// The number of the last invoice.
    pub counter: nat,
}

/// The last value that stands under each key.
spec fn last_under(list: Seq<(String, String)>) -> Map<Seq<char>, Seq<char>>
    decreases list.len(),
{
    if list.len() == 0 {
        Map::empty()
    } else {
        last_under(list.drop_last()).insert(list.last().0@, list.last().1@)
    }
}

impl View for MockPay {
    type V = MockView;

    closed spec fn view(&self) -> MockView {
        MockView {
            statuses: last_under(self.statuses@),
            created: text::views(self.created@),
            fail: self.fail,
            counter: self.counter as nat,
        }
    }
}

/// The id of the invoice with this number.
pub open spec fn mock_id(n: nat) -> Seq<char> {
    "inv-"@ + digits::decimal(n)
}

impl MockPay {
    /// A backend without invoices.
    pub fn new() -> (mock: MockPay)
        ensures
            mock@ == (MockView {
                statuses: Map::empty(),
                created: Seq::empty(),
                fail: false,
                counter: 0,
            }),
    {
        let mock = MockPay { statuses: Vec::new(), created: Vec::new(), fail: false, counter: 0 };
        assert(text::views(mock.created@) =~= Seq::<Seq<char>>::empty());
        mock
    }

    /// Report this status of an invoice from now on.
    pub fn set_status(&mut self, invoice_id: &str, status: &str)
        ensures
            final(self)@ == (MockView {
                statuses: old(self)@.statuses.insert(invoice_id@, status@),
                ..old(self)@
            }),
    {
        let ghost before = self.statuses@;
        self.statuses.push((invoice_id.to_owned(), status.to_owned()));
        assert(self.statuses@.drop_last() =~= before);
    }

    /// Make every call fail, or work again.
    pub fn set_fail(&mut self, fail: bool)
        ensures
            final(self)@ == (MockView { fail, ..old(self)@ }),
    {
        self.fail = fail;
    }

    /// The number of invoices created.
    pub fn created_count(&self) -> (n: usize)
        ensures
            n == self@.created.len(),
    {
        self.created.len()
    }
}

impl PayBackend for MockPay {
    fn create_invoice(&mut self, order_ref: &str, amount_nanogrin: u64, memo: &str) -> (r: Result<
        Invoice,
        String,
    >)
        ensures
            match r {
                Err(_) => (old(self)@.fail || old(self)@.counter == u64::MAX) && final(self)@ == old(
                    self,
                )@,
                Ok(invoice) => {
                    &&& !old(self)@.fail
                    &&& invoice.id@ == mock_id(old(self)@.counter + 1)
                    &&& invoice.pay_url@ == "https://pay.example/pay/"@ + invoice.id@
                    &&& invoice.status@ == "open"@
                    &&& final(self)@ == (MockView {
                        statuses: old(self)@.statuses.insert(invoice.id@, "open"@),
                        created: old(self)@.created.push(order_ref@),
                        fail: false,
                        counter: old(self)@.counter + 1,
                    })
                },
            },
    {
        if self.fail {
            return Err("mock backend down".to_owned());
        }
        if self.counter == u64::MAX {
            return Err("mock backend full".to_owned());
        }
        self.counter = self.counter + 1;
        let mut id = "inv-".to_owned();
        let number = u64_text(self.counter);
        id.append(number.as_str());
        self.set_status(id.as_str(), "open");
        let ghost before = self.created@;
        self.created.push(order_ref.to_owned());
        assert(text::views(self.created@) =~= text::views(before).push(order_ref@));
        let mut pay_url = "https://pay.example/pay/".to_owned();
        pay_url.append(id.as_str());
        Ok(Invoice { id, pay_url, status: "open".to_owned() })
    }

    fn invoice_status(&self, invoice_id: &str) -> (r: Result<String, String>)
        ensures
            match r {
                Ok(s) => !self@.fail && self@.statuses.contains_key(invoice_id@)
                    && self@.statuses[invoice_id@] == s@,
                Err(_) => self@.fail || !self@.statuses.contains_key(invoice_id@),
            },
    {
        if self.fail {
            return Err("mock backend down".to_owned());
        }
        let mut i: usize = self.statuses.len();
        assert(self.statuses@.take(i as int) =~= self.statuses@);
        while i > 0
            invariant
                i <= self.statuses.len(),
                !self.fail,
                last_under(self.statuses@).contains_key(invoice_id@) <==> last_under(
                    self.statuses@.take(i as int),
                ).contains_key(invoice_id@),
                last_under(self.statuses@).contains_key(invoice_id@) ==> last_under(
                    self.statuses@,
                )[invoice_id@] == last_under(self.statuses@.take(i as int))[invoice_id@],
            decreases i,
        {
            let ghost head = self.statuses@.take(i as int);
            assert(head.drop_last() =~= self.statuses@.take(i - 1));
            assert(head.last() == self.statuses@[i - 1]);
            if same(self.statuses[i - 1].0.as_str(), invoice_id) {
                return Ok(self.statuses[i - 1].1.clone());
            }
            i = i - 1;
        }
        Err("unknown invoice".to_owned())
    }
}

} // verus!
