//! What the switch asks of a connector, one type per operation.

use vstd::prelude::*;
use crate::enums::{CaptureMethod, Currency};
use crate::errors::{missing_field_err, ConnectorError, ConnectorErrorView, ValidationError};
use crate::payment_method_data::PaymentMethodData;
use crate::pii::Email;

verus! {

/// How a connector identifies a transaction.
#[derive(Debug, PartialEq, Eq)]
pub enum ResponseId {
    ConnectorTransactionId(String),
    EncodedData(String),
    NoResponseId,
}

/// A [`ResponseId`] with its texts as sequences of characters.
pub enum ResponseIdView {
    ConnectorTransactionId(Seq<char>),
    EncodedData(Seq<char>),
    NoResponseId,
}

impl View for ResponseId {
    type V = ResponseIdView;

    open spec fn view(&self) -> ResponseIdView {
        match *self {
            ResponseId::ConnectorTransactionId(id) => ResponseIdView::ConnectorTransactionId(id@),
            ResponseId::EncodedData(data) => ResponseIdView::EncodedData(data@),
            ResponseId::NoResponseId => ResponseIdView::NoResponseId,
        }
    }
}

impl ResponseId {
    /// The connector's transaction id, where this is one.
    pub fn get_connector_transaction_id(&self) -> (found: Result<String, ValidationError>)
        ensures
            match *self {
                ResponseId::ConnectorTransactionId(id) => found matches Ok(copy) && copy@ == id@,
                _ => found matches Err(ValidationError::IncorrectValueProvided { field_name })
                    && field_name@ == "connector_transaction_id"@,
            },
    {
        match self {
            ResponseId::ConnectorTransactionId(id) => Ok(id.clone()),
            _ => Err(
                ValidationError::IncorrectValueProvided { field_name: "connector_transaction_id" },
            ),
        }
    }
}

/// The stored authorization under which a payment recurs.
#[derive(Debug, PartialEq, Eq)]
pub struct MandateIds {
    pub mandate_id: Option<String>,
}

/// What the switch asks for when it authorizes a payment.
#[derive(PartialEq, Eq)]
pub struct PaymentsAuthorizeData {
    pub payment_method_data: PaymentMethodData,
    /// In the minor unit of `currency`.
    pub amount: i64,
    pub email: Option<Email>,
    pub currency: Currency,
    pub capture_method: Option<CaptureMethod>,
    pub router_return_url: Option<String>,
    pub mandate_id: Option<MandateIds>,
}

impl PaymentsAuthorizeData {
    /// The URL to which the customer comes back after a redirection.
    pub fn get_router_return_url(&self) -> (found: Result<String, ConnectorError>)
        ensures
            match self.router_return_url {
                Some(url) => found matches Ok(copy) && copy@ == url@,
                None => found matches Err(error) && error@ == (
                ConnectorErrorView::MissingRequiredField { field_name: "return_url"@ }),
            },
    {
        match &self.router_return_url {
            Some(url) => Ok(url.clone()),
            None => Err(missing_field_err("return_url")),
        }
    }
}

/// What the switch asks for when it wants the state of a payment.
#[derive(Debug, PartialEq, Eq)]
pub struct PaymentsSyncData {
    pub connector_transaction_id: ResponseId,
}

/// What the switch asks for when it cancels a payment.
#[derive(Debug, PartialEq, Eq)]
pub struct PaymentsCancelData {
    pub connector_transaction_id: String,
    pub cancellation_reason: Option<String>,
}

/// What the switch asks for when it captures a payment.
#[derive(Debug, PartialEq, Eq)]
pub struct PaymentsCaptureData {
    /// In the minor unit of `currency`.
    pub amount_to_capture: i64,
    pub currency: Currency,
    pub connector_transaction_id: String,
}

/// What the switch asks for when it refunds a payment or wants the state of
/// a refund.
#[derive(Debug, PartialEq, Eq)]
pub struct RefundsData {
    pub refund_id: String,
    pub connector_transaction_id: String,
    pub connector_refund_id: Option<String>,
    pub currency: Currency,
    /// In the minor unit of `currency`.
    pub refund_amount: i64,
}

} // verus!
