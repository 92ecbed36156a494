//! Customer records: the items of the collection that the list shows.
use crate::text::{contains_seq, lower_of, lowercase, text_contains};
use fake::Fake;
use vstd::prelude::*;

verus! {

/// One record of the collection: a company name and an optional contact and
/// phone number.
#[derive(Debug, Clone)]
pub struct Customer {
    pub name: String,
    pub contact_name: Option<String>,
    pub phone: Option<String>,
}

/// A record as mathematical values.
pub struct CustomerView {
    pub name: Seq<char>,
    pub contact_name: Option<Seq<char>>,
    pub phone: Option<Seq<char>>,
}

/// The text of an optional string.
pub open spec fn opt_view(f: Option<String>) -> Option<Seq<char>> {
    match f {
        Some(s) => Some(s@),
        None => None,
    }
}

impl View for Customer {
    type V = CustomerView;

    open spec fn view(&self) -> CustomerView {
        CustomerView {
            name: self.name@,
            contact_name: opt_view(self.contact_name),
            phone: opt_view(self.phone),
        }
    }
}

/// The text of an optional field, empty where it is absent.
pub open spec fn field_text(f: Option<Seq<char>>) -> Seq<char> {
    match f {
        Some(s) => s,
        None => Seq::empty(),
    }
}

/// The text of an optional field, or the placeholder `(none)` where it is absent.
pub open spec fn field_or_none(f: Option<Seq<char>>) -> Seq<char> {
    match f {
        Some(s) => s,
        None => "(none)"@,
    }
}

impl CustomerView {
    /// The line that the list shows for this record.
    pub open spec fn display_text(self) -> Seq<char> {
        (if self.name.len() == 0 {
            "(none)"@
        } else {
            self.name
        }) + " - "@ + field_or_none(self.contact_name) + " - "@ + field_or_none(self.phone)
    }

    /// The record matches a lower-cased query when one of its fields, lower-cased,
    /// holds the query.
    pub open spec fn matches(self, folded_query: Seq<char>) -> bool {
        ||| contains_seq(lower_of(self.name), folded_query)
        ||| contains_seq(lower_of(field_text(self.contact_name)), folded_query)
        ||| contains_seq(lower_of(field_text(self.phone)), folded_query)
    }
}

/// The text of an optional field as an owned string, empty where it is absent.
fn field_string(f: &Option<String>) -> (r: String)
    ensures
        r@ == field_text(opt_view(*f)),
{
    match f {
        Some(s) => s.clone(),
        None => String::new(),
    }
}

/// A random person's name.
///
/// Relies on `fake::faker::name::en::Name` through `Fake::fake`; nothing is
/// promised of the text it draws.
#[verifier::external_body]
fn fake_name() -> (r: String) {
    fake::faker::name::en::Name().fake::<String>()
}

/// A random phone number.
///
/// Relies on `fake::faker::phone_number::en::PhoneNumber` through
/// `Fake::fake`; nothing is promised of the text it draws.
#[verifier::external_body]
fn fake_phone_number() -> (r: String) {
    fake::faker::phone_number::en::PhoneNumber().fake::<String>()
}

impl Customer {
    /// An empty record: no name, contact or phone.
    pub fn new() -> (r: Customer)
        ensures
            r@ == (CustomerView { name: Seq::empty(), contact_name: None, phone: None }),
    {
        Customer { name: String::new(), contact_name: None, phone: None }
    }

    /// A record with a random name, contact and phone number.
    pub fn sample() -> (r: Customer)
        ensures
            r@.contact_name is Some,
            r@.phone is Some,
    {
        let name = fake_name();
        let contact = fake_name();
        let phone = fake_phone_number();
        Customer { name, contact_name: Some(contact), phone: Some(phone) }
    }

    /// `n - 1` random records (none for `n == 0`), each with a contact and a phone.
    pub fn generate(n: usize) -> (r: Vec<Customer>)
        ensures
            n == 0 ==> r@.len() == 0,
            n > 0 ==> r@.len() == n - 1,
            forall|i: int|
                0 <= i < r@.len() ==> (#[trigger] r@[i])@.contact_name is Some && r@[i]@.phone is Some,
    {
        let mut r: Vec<Customer> = Vec::new();
        let mut i: usize = 1;
        while i < n
            invariant
                1 <= i,
                i <= n || i == 1,
                r@.len() == i - 1,
                forall|k: int|
                    0 <= k < r@.len() ==> (#[trigger] r@[k])@.contact_name is Some && r@[k]@.phone
                        is Some,
            decreases n - i,
        {
            r.push(Customer::sample());
            i = i + 1;
        }
        r
    }

    pub fn set_company_name(&mut self, name: String)
        ensures
            final(self)@ == (CustomerView { name: name@, ..old(self)@ }),
    {
        self.name = name;
    }

    pub fn set_contact_name(&mut self, contact_name: String)
        ensures
            final(self)@ == (CustomerView { contact_name: Some(contact_name@), ..old(self)@ }),
    {
        self.contact_name = Some(contact_name);
    }

    pub fn set_phone_number(&mut self, phone: String)
        ensures
            final(self)@ == (CustomerView { phone: Some(phone@), ..old(self)@ }),
    {
        self.phone = Some(phone);
    }

    pub fn get_company_name(&self) -> (r: String)
        ensures
            r@ == self.name@,
    {
        self.name.clone()
    }

    /// The contact name, empty where there is none.
    pub fn get_contact_name(&self) -> (r: String)
        ensures
            r@ == field_text(self@.contact_name),
    {
        field_string(&self.contact_name)
    }

    /// The phone number, empty where there is none.
    pub fn get_phone_number(&self) -> (r: String)
        ensures
            r@ == field_text(self@.phone),
    {
        field_string(&self.phone)
    }

    /// The line that the list shows: name, contact and phone separated by
    /// ` - `, with `(none)` for an empty name or a missing field.
    pub fn to_string(&self) -> (r: String)
        ensures
            r@ == self@.display_text(),
    {
        let mut r = if self.name.unicode_len() == 0 {
            String::from_str("(none)")
        } else {
            self.name.clone()
        };
        r.append(" - ");
        match &self.contact_name {
            Some(s) => r.append(s.as_str()),
            None => r.append("(none)"),
        }
        r.append(" - ");
        match &self.phone {
            Some(s) => r.append(s.as_str()),
            None => r.append("(none)"),
        }
        r
    }

    /// Whether some field of the record, lower-cased, holds `folded_query`
    /// (a query that is already lower-cased).
    pub fn matches_folded(&self, folded_query: &str) -> (r: bool)
        ensures
            r == self@.matches(folded_query@),
    {
        let name = lowercase(self.name.as_str());
        if text_contains(name.as_str(), folded_query) {
            return true;
        }
        let contact = field_string(&self.contact_name);
        let contact = lowercase(contact.as_str());
        if text_contains(contact.as_str(), folded_query) {
            return true;
        }
        let phone = field_string(&self.phone);
        let phone = lowercase(phone.as_str());
        text_contains(phone.as_str(), folded_query)
    }
}

} // verus!
