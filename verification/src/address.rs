//! Postal addresses and contact details of a customer.

use vstd::prelude::*;
use vstd::string::StringExecFns;
use crate::enums::CountryAlpha2;
use crate::errors::{missing_field_err, ConnectorError, ConnectorErrorView};
use crate::pii::{Email, Secret};
use crate::views::view_of;

verus! {

/// Whose address it is, and in which country.
#[derive(PartialEq, Eq)]
pub struct AddressDetails {
    pub country: Option<CountryAlpha2>,
    pub first_name: Option<Secret>,
    pub last_name: Option<Secret>,
}

/// An address with the e-mail address that belongs to it.
#[derive(PartialEq, Eq)]
pub struct Address {
    pub address: Option<AddressDetails>,
    pub email: Option<Email>,
}

/// The addresses that come with a payment.
#[derive(PartialEq, Eq)]
pub struct PaymentAddress {
    pub shipping: Option<Address>,
    pub billing: Option<Address>,
}

impl AddressDetails {
    /// First and last name with one space between them, or the one of them
    /// that is there.
    pub open spec fn full_name(&self) -> Option<Seq<char>> {
        match (self.first_name, self.last_name) {
            (Some(first), Some(last)) => Some(first@ + " "@ + last@),
            (Some(name), None) | (None, Some(name)) => Some(name@),
            (None, None) => None,
        }
    }

    /// The full name on the address, where it has a name.
    pub fn get_optional_full_name(&self) -> (name: Option<Secret>)
        ensures
            view_of(name) == self.full_name(),
    {
        match (&self.first_name, &self.last_name) {
            (Some(first), Some(last)) => {
                let mut name = first.peek().clone();
                name.append(" ");
                name.append(last.peek().as_str());
                Some(Secret::new(name))
            },
            (Some(name), None) => Some(name.clone()),
            (None, Some(name)) => Some(name.clone()),
            (None, None) => None,
        }
    }

    /// The country of the address, which is missing where it has none.
    pub fn get_country(&self) -> (found: Result<&CountryAlpha2, ConnectorError>)
        ensures
            match self.country {
                Some(country) => found == Ok::<&CountryAlpha2, ConnectorError>(&country),
                None => found matches Err(error) && error@ == (
                ConnectorErrorView::MissingRequiredField { field_name: "address.country"@ }),
            },
    {
        match &self.country {
            Some(country) => Ok(country),
            None => Err(missing_field_err("address.country")),
        }
    }
}

} // verus!
