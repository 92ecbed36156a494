//! A person to reach, by phone or by email.
use crate::customer::opt_view;
use vstd::prelude::*;

verus! {

/// A contact as mathematical values.
pub struct ContactView {
    pub name: Seq<char>,
    pub phone: Option<Seq<char>>,
    pub email: Option<Seq<char>>,
}

/// A contact: a name and at least one of a phone number and an email address.
pub struct Contact {
    name: String,
    phone: Option<String>,
    email: Option<String>,
}

pub const ERR_MSG: &'static str = "At least one of phone or email must be provided";

impl View for Contact {
    type V = ContactView;

    closed spec fn view(&self) -> ContactView {
        ContactView { name: self.name@, phone: opt_view(self.phone), email: opt_view(self.email) }
    }
}

/// The text of an optional field, or `N/A` where it is absent.
pub open spec fn field_or_na(f: Option<Seq<char>>) -> Seq<char> {
    match f {
        Some(s) => s,
        None => "N/A"@,
    }
}

impl Contact {
    #[verifier::type_invariant]
    spec fn reachable(self) -> bool {
        self.phone is Some || self.email is Some
    }

    /// A contact with the given name, phone and email; refused where both the
    /// phone and the email are missing.
    pub fn _new(name: String, phone: Option<String>, email: Option<String>) -> (r: Result<
        Contact,
        &'static str,
    >)
        ensures
            phone is None && email is None <==> r is Err,
            r matches Err(e) ==> e@ == ERR_MSG@,
            r matches Ok(c) ==> c@ == (ContactView {
                name: name@,
                phone: opt_view(phone),
                email: opt_view(email),
            }),
    {
        if phone.is_none() && email.is_none() {
            return Err(ERR_MSG);
        }
        Ok(Contact { name, phone, email })
    }

    /// Replaces the phone number; refused, with the contact unchanged, where
    /// that would leave neither a phone number nor an email address.
    pub fn _set_phone(&mut self, phone: Option<String>) -> (r: Result<(), &'static str>)
        ensures
            phone is None && old(self)@.email is None <==> r is Err,
            r matches Err(e) ==> e@ == ERR_MSG@ && final(self)@ == old(self)@,
            r is Ok ==> final(self)@ == (ContactView { phone: opt_view(phone), ..old(self)@ }),
            final(self)@.phone is Some || final(self)@.email is Some,
    {
        proof {
            use_type_invariant(&*self);
        }
        if phone.is_none() && self.email.is_none() {
            return Err(ERR_MSG);
        }
        self.phone = phone;
        Ok(())
    }

    /// Replaces the email address; refused, with the contact unchanged, where
    /// that would leave neither a phone number nor an email address.
    pub fn _set_email(&mut self, email: Option<String>) -> (r: Result<(), &'static str>)
        ensures
            email is None && old(self)@.phone is None <==> r is Err,
            r matches Err(e) ==> e@ == ERR_MSG@ && final(self)@ == old(self)@,
            r is Ok ==> final(self)@ == (ContactView { email: opt_view(email), ..old(self)@ }),
            final(self)@.phone is Some || final(self)@.email is Some,
    {
        proof {
            use_type_invariant(&*self);
        }
        if email.is_none() && self.phone.is_none() {
            return Err(ERR_MSG);
        }
        self.email = email;
        Ok(())
    }

    /// `Name: …, Phone: …, Email: …`, with `N/A` for a missing field.
    pub fn to_string(&self) -> (r: String)
        ensures
            r@ == "Name: "@ + self@.name + ", Phone: "@ + field_or_na(self@.phone) + ", Email: "@
                + field_or_na(self@.email),
    {
        let mut r = String::from_str("Name: ");
        r.append(self.name.as_str());
        r.append(", Phone: ");
        match &self.phone {
            Some(p) => r.append(p.as_str()),
            None => r.append("N/A"),
        }
        r.append(", Email: ");
        match &self.email {
            Some(e) => r.append(e.as_str()),
            None => r.append("N/A"),
        }
        r
    }
}

} // verus!
