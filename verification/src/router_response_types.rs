//! What a connector's answer becomes in the switch's data model.

use vstd::prelude::*;
use crate::enums::RefundStatus;
use crate::views::view_of;
use crate::redirect::{RedirectForm, RedirectFormView};
use crate::router_request_types::{ResponseId, ResponseIdView};

verus! {

/// The connector's handle on a stored authorization.
#[derive(Debug, PartialEq, Eq)]
pub struct MandateReference {
    pub connector_mandate_id: Option<String>,
    pub payment_method_id: Option<String>,
}

/// What the switch records of a connector's answer on a payment.
pub enum PaymentsResponseData {
    TransactionResponse {
        resource_id: ResponseId,
        redirection_data: Option<RedirectForm>,
        mandate_reference: Option<MandateReference>,
        connector_metadata: Option<String>,
        network_txn_id: Option<String>,
        connector_response_reference_id: Option<String>,
        incremental_authorization_allowed: Option<bool>,
    },
}

/// A [`PaymentsResponseData`] with its texts as sequences of characters.
pub enum PaymentsResponseDataView {
    TransactionResponse {
        resource_id: ResponseIdView,
        redirection_data: Option<RedirectFormView>,
        mandate_reference: Option<MandateReference>,
        connector_metadata: Option<Seq<char>>,
        network_txn_id: Option<Seq<char>>,
        connector_response_reference_id: Option<Seq<char>>,
        incremental_authorization_allowed: Option<bool>,
    },
}

impl View for PaymentsResponseData {
    type V = PaymentsResponseDataView;

    open spec fn view(&self) -> PaymentsResponseDataView {
        match *self {
            PaymentsResponseData::TransactionResponse {
                resource_id,
                redirection_data,
                mandate_reference,
                connector_metadata,
                network_txn_id,
                connector_response_reference_id,
                incremental_authorization_allowed,
            } => PaymentsResponseDataView::TransactionResponse {
                resource_id: resource_id@,
                redirection_data: view_of(redirection_data),
                mandate_reference,
                connector_metadata: view_of(connector_metadata),
                network_txn_id: view_of(network_txn_id),
                connector_response_reference_id: view_of(connector_response_reference_id),
                incremental_authorization_allowed,
            },
        }
    }
}

/// What the switch records of a connector's answer on a refund.
#[derive(Debug, PartialEq, Eq)]
pub struct RefundsResponseData {
    pub connector_refund_id: String,
    pub refund_status: RefundStatus,
}

/// A [`RefundsResponseData`] with its text as a sequence of characters.
pub struct RefundsResponseDataView {
    pub connector_refund_id: Seq<char>,
    pub refund_status: RefundStatus,
}

impl View for RefundsResponseData {
    type V = RefundsResponseDataView;

    open spec fn view(&self) -> RefundsResponseDataView {
        RefundsResponseDataView {
            connector_refund_id: self.connector_refund_id@,
            refund_status: self.refund_status,
        }
    }
}

} // verus!
