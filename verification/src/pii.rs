//! Holders for credentials and personal data. A holder gives its content out
//! only through an explicit `peek`, and offers no way to print it.

use vstd::prelude::*;

verus! {

/// A string that must not leak into logs: a credential, a name, a card detail.
#[derive(PartialEq, Eq)]
pub struct Secret {
    inner: String,
}

impl View for Secret {
    type V = Seq<char>;

    closed spec fn view(&self) -> Seq<char> {
        self.inner@
    }
}

impl Secret {
    /// Takes a secret into keeping.
    pub fn new(secret: String) -> (masked: Self)
        ensures
            masked@ == secret@,
    {
        Secret { inner: secret }
    }

    /// The secret itself, for the one place that has to write it out.
    pub fn peek(&self) -> (secret: &String)
        ensures
            secret@ == self@,
    {
        &self.inner
    }
}

impl Clone for Secret {
    fn clone(&self) -> (copy: Self)
        ensures
            copy@ == self@,
    {
        Secret { inner: self.inner.clone() }
    }
}

impl Default for Secret {
    fn default() -> (masked: Self)
        ensures
            masked@ == Seq::<char>::empty(),
    {
        Secret { inner: String::new() }
    }
}

/// An e-mail address of a customer.
#[derive(PartialEq, Eq)]
pub struct Email {
    inner: String,
}

impl View for Email {
    type V = Seq<char>;

    closed spec fn view(&self) -> Seq<char> {
        self.inner@
    }
}

impl Email {
    /// Takes an e-mail address into keeping.
    pub fn new(address: String) -> (masked: Self)
        ensures
            masked@ == address@,
    {
        Email { inner: address }
    }

    /// The address itself, for the one place that has to write it out.
    pub fn peek(&self) -> (address: &String)
        ensures
            address@ == self@,
    {
        &self.inner
    }
}

impl Clone for Email {
    fn clone(&self) -> (copy: Self)
        ensures
            copy@ == self@,
    {
        Email { inner: self.inner.clone() }
    }
}

/// A primary account number of a payment card.
#[derive(PartialEq, Eq)]
pub struct CardNumber {
    inner: String,
}

impl View for CardNumber {
    type V = Seq<char>;

    closed spec fn view(&self) -> Seq<char> {
        self.inner@
    }
}

impl CardNumber {
    /// Takes a card number into keeping.
    pub fn new(number: String) -> (masked: Self)
        ensures
            masked@ == number@,
    {
        CardNumber { inner: number }
    }

    /// The number itself, for the one place that has to write it out.
    pub fn peek(&self) -> (number: &String)
        ensures
            number@ == self@,
    {
        &self.inner
    }
}

impl Clone for CardNumber {
    fn clone(&self) -> (copy: Self)
        ensures
            copy@ == self@,
    {
        CardNumber { inner: self.inner.clone() }
    }
}

impl Default for CardNumber {
    fn default() -> (masked: Self)
        ensures
            masked@ == Seq::<char>::empty(),
    {
        CardNumber { inner: String::new() }
    }
}

} // verus!
