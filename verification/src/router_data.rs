//! The record that accompanies one operation through the switch: who asks,
//! what is asked, and in the end what the connector answered.

use core::marker::PhantomData;
use vstd::prelude::*;
use crate::address::{AddressDetails, PaymentAddress};
use crate::enums::{AttemptStatus, AuthenticationType, Currency};
use crate::errors::{missing_field_err, ConnectorError, ConnectorErrorView, ErrorResponse};
use crate::pii::Secret;
use crate::views::view_of;
use crate::router_flow_types::{Authorize, Capture, Execute, PSync, RSync, Void};
use crate::router_request_types::{
    PaymentsAuthorizeData, PaymentsCancelData, PaymentsCaptureData, PaymentsSyncData, RefundsData,
};
use crate::router_response_types::{PaymentsResponseData, RefundsResponseData};

verus! {

/// The credential of a merchant at a connector, in the shapes that the
/// switch can store.
#[derive(PartialEq, Eq)]
pub enum ConnectorAuthType {
    TemporaryAuth,
    HeaderKey { api_key: Secret },
    BodyKey { api_key: Secret, key1: Secret },
    SignatureKey { api_key: Secret, key1: Secret, api_secret: Secret },
    MultiAuthKey { api_key: Secret, key1: Secret, api_secret: Secret, key2: Secret },
    CurrencyAuthKey { auth_key_map: Vec<(Currency, Secret)> },
    CertificateAuth { certificate: Secret, private_key: Secret },
    NoKey,
}

/// The record of one operation of kind `Flow`: the payment and the merchant
/// it belongs to, the request of the switch, and the response, which is a
/// failure until a connector has answered.
pub struct RouterData<Flow, Request, Response> {
    pub flow: PhantomData<Flow>,
    pub connector: String,
    pub payment_id: String,
    pub attempt_id: String,
    pub status: AttemptStatus,
    pub connector_auth_type: ConnectorAuthType,
    pub description: Option<String>,
    pub address: PaymentAddress,
    pub auth_type: AuthenticationType,
    pub request: Request,
    pub response: Result<Response, ErrorResponse>,
    /// The switch's own reference for this request at the connector.
    pub connector_request_reference_id: String,
    pub amount_captured: Option<i64>,
    pub test_mode: Option<bool>,
}

/// The record of an authorization.
pub type PaymentsAuthorizeRouterData = RouterData<
    Authorize,
    PaymentsAuthorizeData,
    PaymentsResponseData,
>;

/// The record of a request for the state of a payment.
pub type PaymentsSyncRouterData = RouterData<PSync, PaymentsSyncData, PaymentsResponseData>;

/// The record of a cancellation.
pub type PaymentsCancelRouterData = RouterData<Void, PaymentsCancelData, PaymentsResponseData>;

/// The record of a capture.
pub type PaymentsCaptureRouterData = RouterData<Capture, PaymentsCaptureData, PaymentsResponseData>;

/// The record of an operation on a refund.
pub type RefundsRouterData<F> = RouterData<F, RefundsData, RefundsResponseData>;

/// The record of a refund.
pub type RefundExecuteRouterData = RefundsRouterData<Execute>;

/// The record of a request for the state of a refund.
pub type RefundSyncRouterData = RefundsRouterData<RSync>;

/// A connector's answer of type `R` beside the record of the operation that
/// it answers.
pub struct ResponseRouterData<Flow, R, Request, Response> {
    pub response: R,
    pub data: RouterData<Flow, Request, Response>,
    pub http_code: u16,
}

/// An answer beside the record of an operation on a refund.
pub type RefundsResponseRouterData<F, R> = ResponseRouterData<
    F,
    R,
    RefundsData,
    RefundsResponseData,
>;

impl<Flow, Request, Response> RouterData<Flow, Request, Response> {
    /// The details of the billing address, where the payment has any.
    pub open spec fn billing_address(&self) -> Option<AddressDetails> {
        match self.address.billing {
            Some(billing) => billing.address,
            None => None,
        }
    }

    /// The code of the billing country, where the payment has one.
    pub open spec fn billing_country(&self) -> Option<Seq<char>> {
        match self.billing_address() {
            Some(details) => view_of(details.country),
            None => None,
        }
    }

    /// The full name on the billing address, where there is one.
    pub open spec fn billing_full_name(&self) -> Option<Seq<char>> {
        match self.billing_address() {
            Some(details) => details.full_name(),
            None => None,
        }
    }

    /// The details of the billing address, which are missing where the
    /// payment has none.
    pub fn get_billing_address(&self) -> (found: Result<&AddressDetails, ConnectorError>)
        ensures
            match self.billing_address() {
                Some(details) => found == Ok::<&AddressDetails, ConnectorError>(&details),
                None => found matches Err(error) && error@ == (
                ConnectorErrorView::MissingRequiredField { field_name: "billing.address"@ }),
            },
    {
        match &self.address.billing {
            Some(billing) => match &billing.address {
                Some(details) => Ok(details),
                None => Err(missing_field_err("billing.address")),
            },
            None => Err(missing_field_err("billing.address")),
        }
    }

    /// The full name on the billing address, where there is one.
    pub fn get_optional_billing_full_name(&self) -> (name: Option<Secret>)
        ensures
            view_of(name) == self.billing_full_name(),
    {
        match &self.address.billing {
            Some(billing) => match &billing.address {
                Some(details) => details.get_optional_full_name(),
                None => None,
            },
            None => None,
        }
    }
}

} // verus!
