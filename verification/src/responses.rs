//! The processor's answers, and what each becomes in the switch's record of
//! the operation. An answer changes the status and the response of the
//! record and leaves the rest of it as it was.

use vstd::prelude::*;
use url::Url;
use crate::enums;
use crate::enums::Method;
use crate::errors::ConnectorError;
use crate::views::view_of;
use crate::redirect::{redirect_form, RedirectForm, RedirectFormView};
use crate::router_data::{ResponseRouterData, RouterData};
use crate::router_flow_types::{Execute, RSync};
use crate::router_request_types::{ResponseId, ResponseIdView};
use crate::router_response_types::{
    PaymentsResponseData, PaymentsResponseDataView, RefundsResponseData, RefundsResponseDataView,
};
use crate::status::{attempt_status, refund_status, DlocalPaymentStatus, RefundStatus};

verus! {

/// Where the processor wants the customer to go for 3-D Secure.
#[derive(Clone, Debug, PartialEq, Eq)]
pub struct ThreeDSecureResData {
    pub redirect_url: Option<Url>,
}

/// The answer to an authorization.
#[derive(Clone, Debug, Default, PartialEq, Eq)]
pub struct DlocalPaymentsResponse {
    pub status: DlocalPaymentStatus,
    pub id: String,
    pub three_dsecure: Option<ThreeDSecureResData>,
    pub order_id: Option<String>,
}

/// The answer to a request for the state of a payment.
#[derive(Debug, Default, PartialEq, Eq)]
pub struct DlocalPaymentsSyncResponse {
    pub status: DlocalPaymentStatus,
    pub id: String,
    pub order_id: Option<String>,
}

impl Clone for DlocalPaymentsSyncResponse {
    fn clone(&self) -> (copy: Self)
        ensures
            copy == *self,
    {
        DlocalPaymentsSyncResponse {
            status: self.status,
            id: self.id.clone(),
            order_id: self.order_id.clone(),
        }
    }
}

/// The answer to a capture.
#[derive(Debug, Default, PartialEq, Eq)]
pub struct DlocalPaymentsCaptureResponse {
    pub status: DlocalPaymentStatus,
    pub id: String,
    pub order_id: Option<String>,
}

impl Clone for DlocalPaymentsCaptureResponse {
    fn clone(&self) -> (copy: Self)
        ensures
            copy == *self,
    {
        DlocalPaymentsCaptureResponse {
            status: self.status,
            id: self.id.clone(),
            order_id: self.order_id.clone(),
        }
    }
}

/// The answer to a cancellation. It names no transaction of its own: the
/// order stands for it.
#[derive(Debug, PartialEq, Eq)]
pub struct DlocalPaymentsCancelResponse {
    pub status: DlocalPaymentStatus,
    pub order_id: String,
}

/// The answer to a refund, and to a request for the state of one.
#[derive(Debug, Default, PartialEq, Eq)]
pub struct RefundResponse {
    pub id: String,
    pub status: RefundStatus,
}

impl Clone for RefundResponse {
    fn clone(&self) -> (copy: Self)
        ensures
            copy == *self,
    {
        RefundResponse { id: self.id.clone(), status: self.status }
    }
}

/// The body of an answer that reports a failure.
#[derive(Debug, Default, PartialEq, Eq)]
pub struct DlocalErrorResponse {
    pub code: i32,
    pub message: String,
    pub param: Option<String>,
}

/// The response that the switch records for a transaction: the id under
/// which the connector knows it, where to send the customer if anywhere, and
/// the connector's reference. It carries nothing else.
pub open spec fn transaction_response(
    id: Seq<char>,
    redirection_data: Option<RedirectFormView>,
    reference_id: Option<Seq<char>>,
) -> PaymentsResponseDataView {
    PaymentsResponseDataView::TransactionResponse {
        resource_id: ResponseIdView::ConnectorTransactionId(id),
        redirection_data,
        mandate_reference: None,
        connector_metadata: None,
        network_txn_id: None,
        connector_response_reference_id: reference_id,
        incremental_authorization_allowed: None,
    }
}

/// Where an authorization sends the customer: to the URL of its 3-D Secure
/// block, with GET, if it has such a block and the block such a URL.
pub open spec fn redirection_data(three_dsecure: Option<ThreeDSecureResData>) -> Option<
    RedirectFormView,
> {
    match three_dsecure {
        Some(ThreeDSecureResData { redirect_url: Some(url) }) => Some(
            redirect_form(url, Method::Get),
        ),
        _ => None,
    }
}

fn new_transaction_response(
    id: String,
    redirection_data: Option<RedirectForm>,
    reference_id: Option<String>,
) -> (response: PaymentsResponseData)
    ensures
        response@ == transaction_response(id@, view_of(redirection_data), view_of(reference_id)),
{
    PaymentsResponseData::TransactionResponse {
        resource_id: ResponseId::ConnectorTransactionId(id),
        redirection_data,
        mandate_reference: None,
        connector_metadata: None,
        network_txn_id: None,
        connector_response_reference_id: reference_id,
        incremental_authorization_allowed: None,
    }
}

/// An answer of the processor that can be recorded in the record of an
/// operation of kind `Flow` whose responses are of type `Response`.
pub trait Answer<Flow, Response: View>: Sized {
    /// The status of the attempt once the answer is recorded, given the
    /// status before.
    spec fn status_after(&self, before: enums::AttemptStatus) -> enums::AttemptStatus;

    /// The response that the switch records for the answer.
    spec fn recorded(&self) -> Response::V;

    /// Turns the answer into the status and the response to record.
    fn record(self, before: enums::AttemptStatus) -> (parts: (enums::AttemptStatus, Response))
        ensures
            parts.0 == self.status_after(before),
            parts.1@ == self.recorded(),
    ;
}

impl<Flow, Request, Response: View> RouterData<Flow, Request, Response> {
    /// Records an answer of the processor: the record gets the status and
    /// the response that the answer gives, and keeps the rest of what it held.
    pub fn try_from<R: Answer<Flow, Response>>(
        item: ResponseRouterData<Flow, R, Request, Response>,
    ) -> (recorded: Result<Self, ConnectorError>)
        ensures
            recorded matches Ok(data) && data.response matches Ok(response) && {
                &&& data.status == item.response.status_after(item.data.status)
                &&& response@ == item.response.recorded()
                &&& data == (RouterData {
                    status: data.status,
                    response: data.response,
                    ..item.data
                })
            },
    {
        let (status, response) = item.response.record(item.data.status);
        Ok(RouterData { status, response: Ok(response), ..item.data })
    }
}

/// The answer to an authorization gives the attempt the status that its own
/// status stands for. It is recorded under the processor's id of the
/// transaction, with the redirection of its 3-D Secure block, if any, and
/// with the order as the reference.
impl<F> Answer<F, PaymentsResponseData> for DlocalPaymentsResponse {
    open spec fn status_after(&self, before: enums::AttemptStatus) -> enums::AttemptStatus {
        attempt_status(self.status)
    }

    open spec fn recorded(&self) -> PaymentsResponseDataView {
        transaction_response(
            self.id@,
            redirection_data(self.three_dsecure),
            view_of(self.order_id),
        )
    }

    fn record(self, before: enums::AttemptStatus) -> (parts: (
        enums::AttemptStatus,
        PaymentsResponseData,
    )) {
        let redirection_data = match self.three_dsecure {
            Some(three_secure_data) => match three_secure_data.redirect_url {
                Some(redirect_url) => Some(RedirectForm::from((redirect_url, Method::Get))),
                None => None,
            },
            None => None,
        };
        let response = new_transaction_response(self.id, redirection_data, self.order_id);
        (enums::AttemptStatus::from(self.status), response)
    }
}

/// The answer to a request for the state of a payment gives the attempt the
/// status that its own status stands for. It is recorded under the
/// processor's id of the transaction, with the order as the reference, and
/// sends the customer nowhere.
impl<F> Answer<F, PaymentsResponseData> for DlocalPaymentsSyncResponse {
    open spec fn status_after(&self, before: enums::AttemptStatus) -> enums::AttemptStatus {
        attempt_status(self.status)
    }

    open spec fn recorded(&self) -> PaymentsResponseDataView {
        transaction_response(self.id@, None, view_of(self.order_id))
    }

    fn record(self, before: enums::AttemptStatus) -> (parts: (
        enums::AttemptStatus,
        PaymentsResponseData,
    )) {
        let response = new_transaction_response(self.id, None, self.order_id);
        (enums::AttemptStatus::from(self.status), response)
    }
}

/// The answer to a capture gives the attempt the status that its own status
/// stands for. It is recorded under the processor's id of the transaction,
/// with the order as the reference, and sends the customer nowhere.
impl<F> Answer<F, PaymentsResponseData> for DlocalPaymentsCaptureResponse {
    open spec fn status_after(&self, before: enums::AttemptStatus) -> enums::AttemptStatus {
        attempt_status(self.status)
    }

    open spec fn recorded(&self) -> PaymentsResponseDataView {
        transaction_response(self.id@, None, view_of(self.order_id))
    }

    fn record(self, before: enums::AttemptStatus) -> (parts: (
        enums::AttemptStatus,
        PaymentsResponseData,
    )) {
        let response = new_transaction_response(self.id, None, self.order_id);
        (enums::AttemptStatus::from(self.status), response)
    }
}

/// The answer to a cancellation gives the attempt the status that its own
/// status stands for. It is recorded with the order in the place of the
/// transaction and as the reference, and sends the customer nowhere.
impl<F> Answer<F, PaymentsResponseData> for DlocalPaymentsCancelResponse {
    open spec fn status_after(&self, before: enums::AttemptStatus) -> enums::AttemptStatus {
        attempt_status(self.status)
    }

    open spec fn recorded(&self) -> PaymentsResponseDataView {
        transaction_response(self.order_id@, None, Some(self.order_id@))
    }

    fn record(self, before: enums::AttemptStatus) -> (parts: (
        enums::AttemptStatus,
        PaymentsResponseData,
    )) {
        let reference_id = self.order_id.clone();
        let response = new_transaction_response(self.order_id, None, Some(reference_id));
        (enums::AttemptStatus::from(self.status), response)
    }
}

/// The response that the switch records for a refund.
pub open spec fn refund_response(answer: RefundResponse) -> RefundsResponseDataView {
    RefundsResponseDataView {
        connector_refund_id: answer.id@,
        refund_status: refund_status(answer.status),
    }
}

/// The answer to a refund leaves the status of the attempt as it was.
impl Answer<Execute, RefundsResponseData> for RefundResponse {
    open spec fn status_after(&self, before: enums::AttemptStatus) -> enums::AttemptStatus {
        before
    }

    open spec fn recorded(&self) -> RefundsResponseDataView {
        refund_response(*self)
    }

    fn record(self, before: enums::AttemptStatus) -> (parts: (
        enums::AttemptStatus,
        RefundsResponseData,
    )) {
        let refund_status = enums::RefundStatus::from(self.status);
        (before, RefundsResponseData { connector_refund_id: self.id, refund_status })
    }
}

/// The answer to a request for the state of a refund leaves the status of
/// the attempt as it was.
impl Answer<RSync, RefundsResponseData> for RefundResponse {
    open spec fn status_after(&self, before: enums::AttemptStatus) -> enums::AttemptStatus {
        before
    }

    open spec fn recorded(&self) -> RefundsResponseDataView {
        refund_response(*self)
    }

    fn record(self, before: enums::AttemptStatus) -> (parts: (
        enums::AttemptStatus,
        RefundsResponseData,
    )) {
        let refund_status = enums::RefundStatus::from(self.status);
        (before, RefundsResponseData { connector_refund_id: self.id, refund_status })
    }
}

/// The customer is sent somewhere exactly where the answer to an
/// authorization has a 3-D Secure block with a URL, and then to that URL by a
/// form with the method GET. An answer without such a block, or with a block
/// without URL, is recorded without redirection.
pub proof fn redirection_follows_redirect_url<F>(answer: DlocalPaymentsResponse)
    ensures
        <DlocalPaymentsResponse as Answer<F, PaymentsResponseData>>::recorded(
            &answer,
        ) matches PaymentsResponseDataView::TransactionResponse { redirection_data, .. } && {
            &&& redirection_data is Some <==> (answer.three_dsecure matches Some(block)
                && block.redirect_url is Some)
            &&& answer.three_dsecure matches Some(ThreeDSecureResData { redirect_url: Some(url) })
                ==> redirection_data == Some(redirect_form(url, Method::Get))
            &&& redirection_data matches Some(form) ==> form matches RedirectFormView::Form {
                method,
                ..
            } && method == Method::Get
        },
{
}

/// The answers to a request for the state of a payment, to a capture and to
/// a cancellation are recorded without redirection.
pub proof fn follow_ups_redirect_nowhere<F>(
    sync: DlocalPaymentsSyncResponse,
    capture: DlocalPaymentsCaptureResponse,
    cancel: DlocalPaymentsCancelResponse,
)
    ensures
        <DlocalPaymentsSyncResponse as Answer<F, PaymentsResponseData>>::recorded(
            &sync,
        ) matches PaymentsResponseDataView::TransactionResponse { redirection_data, .. }
            && redirection_data is None,
        <DlocalPaymentsCaptureResponse as Answer<F, PaymentsResponseData>>::recorded(
            &capture,
        ) matches PaymentsResponseDataView::TransactionResponse { redirection_data, .. }
            && redirection_data is None,
        <DlocalPaymentsCancelResponse as Answer<F, PaymentsResponseData>>::recorded(
            &cancel,
        ) matches PaymentsResponseDataView::TransactionResponse { redirection_data, .. }
            && redirection_data is None,
{
}

/// A refund is recorded with the processor's id of it and with the status
/// that the processor's status stands for: it sends the customer nowhere.
pub proof fn refund_status_table(answer: RefundResponse)
    ensures
        refund_response(answer).connector_refund_id == answer.id@,
        answer.status == RefundStatus::Success ==> refund_response(answer).refund_status
            == enums::RefundStatus::Success,
        answer.status == RefundStatus::Pending ==> refund_response(answer).refund_status
            == enums::RefundStatus::Pending,
        answer.status == RefundStatus::Rejected ==> refund_response(answer).refund_status
            == enums::RefundStatus::ManualReview,
        answer.status == RefundStatus::Cancelled ==> refund_response(answer).refund_status
            == enums::RefundStatus::Failure,
{
}

} // verus!
