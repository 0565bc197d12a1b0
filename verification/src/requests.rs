//! The requests that follow an authorization (for the state of a payment,
//! to cancel it, to capture it, to refund it, for the state of a refund), and
//! how each is built from the switch's record of the operation.

use vstd::prelude::*;
use crate::enums::{Currency, CurrencyUnit};
use crate::errors::{ConnectorError, ConnectorErrorView};
use crate::router_data::{
    PaymentsCancelRouterData, PaymentsCaptureRouterData, PaymentsSyncRouterData,
    RefundSyncRouterData, RefundsRouterData,
};
use crate::router_request_types::ResponseId;
use crate::text::{decimal, i64_to_string};
use crate::views::result_view;

verus! {

/// A record of the switch beside the amount in the unit that the processor
/// expects.
#[derive(Debug)]
pub struct DlocalRouterData<T> {
    pub amount: i64,
    pub router_data: T,
}

impl<T> DlocalRouterData<T> {
    /// The processor takes amounts in the minor unit, as the switch holds
    /// them: the amount goes through as it is.
    pub fn try_from(item: (&CurrencyUnit, Currency, i64, T)) -> (wrapped: Result<
        Self,
        ConnectorError,
    >)
        ensures
            wrapped matches Ok(data) && data.amount == item.2 && data.router_data == item.3,
    {
        let (_currency_unit, _currency, amount, router_data) = item;
        Ok(DlocalRouterData { amount, router_data })
    }
}

/// Asks for the state of a payment.
#[derive(Debug, PartialEq, Eq)]
pub struct DlocalPaymentsSyncRequest {
    pub authz_id: String,
}

/// A [`DlocalPaymentsSyncRequest`] with its texts as sequences of characters.
pub struct DlocalPaymentsSyncRequestView {
    pub authz_id: Seq<char>,
}

impl View for DlocalPaymentsSyncRequest {
    type V = DlocalPaymentsSyncRequestView;

    open spec fn view(&self) -> DlocalPaymentsSyncRequestView {
        DlocalPaymentsSyncRequestView { authz_id: self.authz_id@ }
    }
}

/// The request for the state of a payment: it names the processor's
/// transaction id, and there is none without one.
pub open spec fn sync_request(item: PaymentsSyncRouterData) -> Result<
    DlocalPaymentsSyncRequestView,
    ConnectorErrorView,
> {
    match item.request.connector_transaction_id {
        ResponseId::ConnectorTransactionId(id) => Ok(
            DlocalPaymentsSyncRequestView { authz_id: id@ },
        ),
        _ => Err(ConnectorErrorView::MissingConnectorTransactionID),
    }
}

impl DlocalPaymentsSyncRequest {
    /// Builds the request for the state of a payment.
    pub fn try_from(item: &PaymentsSyncRouterData) -> (built: Result<Self, ConnectorError>)
        ensures
            result_view(built) == sync_request(*item),
    {
        match item.request.connector_transaction_id.get_connector_transaction_id() {
            Ok(authz_id) => Ok(DlocalPaymentsSyncRequest { authz_id }),
            Err(_) => Err(ConnectorError::MissingConnectorTransactionID),
        }
    }
}

/// Cancels an authorized payment.
#[derive(Debug, PartialEq, Eq)]
pub struct DlocalPaymentsCancelRequest {
    pub cancel_id: String,
}

/// A [`DlocalPaymentsCancelRequest`] with its texts as sequences of characters.
pub struct DlocalPaymentsCancelRequestView {
    pub cancel_id: Seq<char>,
}

impl View for DlocalPaymentsCancelRequest {
    type V = DlocalPaymentsCancelRequestView;

    open spec fn view(&self) -> DlocalPaymentsCancelRequestView {
        DlocalPaymentsCancelRequestView { cancel_id: self.cancel_id@ }
    }
}

/// The request that cancels a payment names the processor's transaction id.
pub open spec fn cancel_request(
    item: PaymentsCancelRouterData,
) -> DlocalPaymentsCancelRequestView {
    DlocalPaymentsCancelRequestView { cancel_id: item.request.connector_transaction_id@ }
}

impl DlocalPaymentsCancelRequest {
    /// Builds the request that cancels a payment.
    pub fn try_from(item: &PaymentsCancelRouterData) -> (built: Result<Self, ConnectorError>)
        ensures
            built matches Ok(request) && request@ == cancel_request(*item),
    {
        Ok(DlocalPaymentsCancelRequest { cancel_id: item.request.connector_transaction_id.clone() })
    }
}

/// Captures the funds of an authorized payment.
#[derive(Debug, Default, PartialEq, Eq)]
pub struct DlocalPaymentsCaptureRequest {
    pub authorization_id: String,
    pub amount: i64,
    pub currency: String,
    pub order_id: String,
}

/// A [`DlocalPaymentsCaptureRequest`] with its texts as sequences of characters.
pub struct DlocalPaymentsCaptureRequestView {
    pub authorization_id: Seq<char>,
    pub amount: i64,
    pub currency: Seq<char>,
    pub order_id: Seq<char>,
}

impl View for DlocalPaymentsCaptureRequest {
    type V = DlocalPaymentsCaptureRequestView;

    open spec fn view(&self) -> DlocalPaymentsCaptureRequestView {
        DlocalPaymentsCaptureRequestView {
            authorization_id: self.authorization_id@,
            amount: self.amount,
            currency: self.currency@,
            order_id: self.order_id@,
        }
    }
}

/// The request that captures a payment: the processor's transaction id, the
/// amount and the currency as the switch gives them, and the switch's
/// reference.
pub open spec fn capture_request(
    item: PaymentsCaptureRouterData,
) -> DlocalPaymentsCaptureRequestView {
    DlocalPaymentsCaptureRequestView {
        authorization_id: item.request.connector_transaction_id@,
        amount: item.request.amount_to_capture,
        currency: item.request.currency@,
        order_id: item.connector_request_reference_id@,
    }
}

impl DlocalPaymentsCaptureRequest {
    /// Builds the request that captures a payment.
    pub fn try_from(item: &PaymentsCaptureRouterData) -> (built: Result<Self, ConnectorError>)
        ensures
            built matches Ok(request) && request@ == capture_request(*item),
    {
        Ok(
            DlocalPaymentsCaptureRequest {
                authorization_id: item.request.connector_transaction_id.clone(),
                amount: item.request.amount_to_capture,
                currency: item.request.currency.to_string(),
                order_id: item.connector_request_reference_id.clone(),
            },
        )
    }
}

/// Refunds a payment, in whole or in part.
#[derive(Debug, Default, PartialEq, Eq)]
pub struct DlocalRefundRequest {
    pub amount: String,
    pub payment_id: String,
    pub currency: Currency,
    pub id: String,
}

/// A [`DlocalRefundRequest`] with its texts as sequences of characters.
pub struct DlocalRefundRequestView {
    pub amount: Seq<char>,
    pub payment_id: Seq<char>,
    pub currency: Seq<char>,
    pub id: Seq<char>,
}

impl View for DlocalRefundRequest {
    type V = DlocalRefundRequestView;

    open spec fn view(&self) -> DlocalRefundRequestView {
        DlocalRefundRequestView {
            amount: self.amount@,
            payment_id: self.payment_id@,
            currency: self.currency@,
            id: self.id@,
        }
    }
}

/// The request that refunds a payment: the amount to refund as a decimal
/// numeral, the processor's id of the payment, the currency, and the switch's
/// id of the refund.
pub open spec fn refund_request<F>(
    item: DlocalRouterData<&RefundsRouterData<F>>,
) -> DlocalRefundRequestView {
    DlocalRefundRequestView {
        amount: decimal(item.router_data.request.refund_amount as int),
        payment_id: item.router_data.request.connector_transaction_id@,
        currency: item.router_data.request.currency@,
        id: item.router_data.request.refund_id@,
    }
}

impl DlocalRefundRequest {
    /// Builds the request that refunds a payment.
    pub fn try_from<F>(item: &DlocalRouterData<&RefundsRouterData<F>>) -> (built: Result<
        Self,
        ConnectorError,
    >)
        ensures
            built matches Ok(request) && request@ == refund_request(*item),
    {
        let amount_to_refund = i64_to_string(item.router_data.request.refund_amount);
        Ok(
            DlocalRefundRequest {
                amount: amount_to_refund,
                payment_id: item.router_data.request.connector_transaction_id.clone(),
                currency: item.router_data.request.currency.clone(),
                id: item.router_data.request.refund_id.clone(),
            },
        )
    }
}

/// Asks for the state of a refund.
#[derive(Debug, Default, PartialEq, Eq)]
pub struct DlocalRefundsSyncRequest {
    pub refund_id: String,
}

/// A [`DlocalRefundsSyncRequest`] with its texts as sequences of characters.
pub struct DlocalRefundsSyncRequestView {
    pub refund_id: Seq<char>,
}

impl Clone for DlocalRefundsSyncRequest {
    fn clone(&self) -> (copy: Self)
        ensures
            copy == *self,
    {
        DlocalRefundsSyncRequest { refund_id: self.refund_id.clone() }
    }
}

impl View for DlocalRefundsSyncRequest {
    type V = DlocalRefundsSyncRequestView;

    open spec fn view(&self) -> DlocalRefundsSyncRequestView {
        DlocalRefundsSyncRequestView { refund_id: self.refund_id@ }
    }
}

/// The request for the state of a refund names the processor's id of the
/// refund where the switch knows it, and the switch's own id where not.
pub open spec fn refund_sync_request(item: RefundSyncRouterData) -> DlocalRefundsSyncRequestView {
    DlocalRefundsSyncRequestView {
        refund_id: match item.request.connector_refund_id {
            Some(id) => id@,
            None => item.request.refund_id@,
        },
    }
}

impl DlocalRefundsSyncRequest {
    /// Builds the request for the state of a refund.
    pub fn try_from(item: &RefundSyncRouterData) -> (built: Result<Self, ConnectorError>)
        ensures
            built matches Ok(request) && request@ == refund_sync_request(*item),
    {
        let refund_id = match &item.request.connector_refund_id {
            Some(id) => id.clone(),
            None => item.request.refund_id.clone(),
        };
        Ok(DlocalRefundsSyncRequest { refund_id })
    }
}

} // verus!
