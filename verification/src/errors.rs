//! Failures of a conversion, and the error payload of a failed call.

use vstd::prelude::*;
use vstd::string::StringExecFns;

verus! {

/// Why a request could not be built or a credential not be read.
#[derive(Debug, PartialEq, Eq)]
pub enum ConnectorError {
    /// The switch did not supply a field that the processor requires.
    MissingRequiredField { field_name: &'static str },
    /// The connector does not offer what was asked for.
    NotImplemented(String),
    /// A status synchronization has no processor transaction id to ask for.
    MissingConnectorTransactionID,
    /// The stored credential has another shape than the connector's.
    FailedToObtainAuthType,
}

/// A [`ConnectorError`] with its texts as sequences of characters.
pub enum ConnectorErrorView {
    MissingRequiredField { field_name: Seq<char> },
    NotImplemented(Seq<char>),
    MissingConnectorTransactionID,
    FailedToObtainAuthType,
}

impl View for ConnectorError {
    type V = ConnectorErrorView;

    open spec fn view(&self) -> ConnectorErrorView {
        match *self {
            ConnectorError::MissingRequiredField { field_name } => {
                ConnectorErrorView::MissingRequiredField { field_name: field_name@ }
            },
            ConnectorError::NotImplemented(message) => ConnectorErrorView::NotImplemented(message@),
            ConnectorError::MissingConnectorTransactionID => {
                ConnectorErrorView::MissingConnectorTransactionID
            },
            ConnectorError::FailedToObtainAuthType => ConnectorErrorView::FailedToObtainAuthType,
        }
    }
}

/// Why a value of the switch's data model could not be read.
#[derive(Debug, PartialEq, Eq)]
pub enum ValidationError {
    /// The field holds a value of another kind than the one asked for.
    IncorrectValueProvided { field_name: &'static str },
}

/// The failure that names a field which the switch did not supply.
pub fn missing_field_err(field_name: &'static str) -> (error: ConnectorError)
    ensures
        error@ == (ConnectorErrorView::MissingRequiredField { field_name: field_name@ }),
{
    ConnectorError::MissingRequiredField { field_name }
}

/// What a connector says of a payment method that it does not offer.
pub open spec fn unimplemented_payment_method_message(connector: Seq<char>) -> Seq<char> {
    "Selected payment method through "@ + connector
}

/// Writes the message for a payment method that a connector does not offer.
pub fn get_unimplemented_payment_method_error_message(connector: &str) -> (message: String)
    ensures
        message@ == unimplemented_payment_method_message(connector@),
{
    "Selected payment method through ".to_owned().concat(connector)
}

/// What the switch records of a call that the processor answered with a failure.
#[derive(Debug, PartialEq, Eq)]
pub struct ErrorResponse {
    pub code: String,
    pub message: String,
    pub reason: Option<String>,
    pub status_code: u16,
}

} // verus!
