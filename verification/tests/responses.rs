use std::marker::PhantomData;

use dlocal_connector::address::PaymentAddress;
use dlocal_connector::enums;
use dlocal_connector::enums::{AttemptStatus, AuthenticationType, Currency, Method};
use dlocal_connector::errors::ErrorResponse;
use dlocal_connector::pii::Secret;
use dlocal_connector::redirect::RedirectForm;
use dlocal_connector::responses::{
    Answer, DlocalErrorResponse, DlocalPaymentsCancelResponse, DlocalPaymentsCaptureResponse,
    DlocalPaymentsResponse, DlocalPaymentsSyncResponse, RefundResponse, ThreeDSecureResData,
};
use dlocal_connector::router_data::{ConnectorAuthType, ResponseRouterData, RouterData};
use dlocal_connector::router_flow_types::{Authorize, Capture, Execute, PSync, RSync, Void};
use dlocal_connector::router_request_types::{
    PaymentsCancelData, PaymentsCaptureData, PaymentsSyncData, RefundsData, ResponseId,
};
use dlocal_connector::router_response_types::{PaymentsResponseData, RefundsResponseData};
use dlocal_connector::status::{DlocalPaymentStatus, RefundStatus};
use url::Url;

fn pending<F, Request, Response>(request: Request) -> RouterData<F, Request, Response> {
    RouterData {
        flow: PhantomData,
        connector: "dlocal".to_string(),
        payment_id: "pay_1".to_string(),
        attempt_id: "pay_1_1".to_string(),
        status: AttemptStatus::Started,
        connector_auth_type: ConnectorAuthType::HeaderKey {
            api_key: Secret::new("key".to_string()),
        },
        description: Some("two tickets".to_string()),
        address: PaymentAddress { shipping: None, billing: None },
        auth_type: AuthenticationType::ThreeDs,
        request,
        response: Err(ErrorResponse {
            code: "IR_00".to_string(),
            message: "no answer yet".to_string(),
            reason: None,
            status_code: 500,
        }),
        connector_request_reference_id: "ref_77".to_string(),
        amount_captured: Some(5),
        test_mode: Some(true),
    }
}

fn answer(
    status: DlocalPaymentStatus,
    three_dsecure: Option<ThreeDSecureResData>,
) -> ResponseRouterData<Authorize, DlocalPaymentsResponse, u8, PaymentsResponseData> {
    ResponseRouterData {
        response: DlocalPaymentsResponse {
            status,
            id: "D-4-abc".to_string(),
            three_dsecure,
            order_id: Some("ref_77".to_string()),
        },
        data: pending(9u8),
        http_code: 200,
    }
}

struct Transaction {
    resource_id: ResponseId,
    redirection_data: Option<RedirectForm>,
    reference_id: Option<String>,
    nothing_else: bool,
}

fn transaction(response: Result<PaymentsResponseData, ErrorResponse>) -> Transaction {
    match response {
        Ok(PaymentsResponseData::TransactionResponse {
            resource_id,
            redirection_data,
            mandate_reference,
            connector_metadata,
            network_txn_id,
            connector_response_reference_id,
            incremental_authorization_allowed,
        }) => Transaction {
            resource_id,
            redirection_data,
            reference_id: connector_response_reference_id,
            nothing_else: mandate_reference.is_none()
                && connector_metadata.is_none()
                && network_txn_id.is_none()
                && incremental_authorization_allowed.is_none(),
        },
        Err(error) => panic!("the record holds a failure: {:?}", error),
    }
}

fn unchanged<F, Request: PartialEq + std::fmt::Debug, Response>(
    data: &RouterData<F, Request, Response>,
    request: Request,
) {
    assert_eq!(data.connector, "dlocal");
    assert_eq!(data.payment_id, "pay_1");
    assert_eq!(data.attempt_id, "pay_1_1");
    assert!(
        data.connector_auth_type
            == ConnectorAuthType::HeaderKey { api_key: Secret::new("key".to_string()) }
    );
    assert_eq!(data.description.as_deref(), Some("two tickets"));
    assert!(data.address == PaymentAddress { shipping: None, billing: None });
    assert_eq!(data.auth_type, AuthenticationType::ThreeDs);
    assert_eq!(data.request, request);
    assert_eq!(data.connector_request_reference_id, "ref_77");
    assert_eq!(data.amount_captured, Some(5));
    assert_eq!(data.test_mode, Some(true));
}

#[test]
fn an_authorization_without_three_d_secure_is_recorded() {
    let item = answer(DlocalPaymentStatus::Authorized, None);
    let data = RouterData::try_from(item).ok().expect("a record");
    assert_eq!(data.status, AttemptStatus::Authorized);
    unchanged(&data, 9u8);
    let recorded = transaction(data.response);
    assert_eq!(recorded.resource_id, ResponseId::ConnectorTransactionId("D-4-abc".to_string()));
    assert!(recorded.redirection_data.is_none());
    assert_eq!(recorded.reference_id.as_deref(), Some("ref_77"));
    assert!(recorded.nothing_else);
}

#[test]
fn a_redirect_url_becomes_a_form_with_get() {
    let url = Url::parse("https://pay.dlocal.example/3ds/start?token=abc%20def&step=1").unwrap();
    let block = ThreeDSecureResData { redirect_url: Some(url) };
    let item = answer(DlocalPaymentStatus::Pending, Some(block));
    let data = RouterData::try_from(item).ok().expect("a record");
    assert_eq!(data.status, AttemptStatus::AuthenticationPending);
    let recorded = transaction(data.response);
    match recorded.redirection_data {
        Some(RedirectForm::Form { endpoint, method, form_fields }) => {
            assert_eq!(endpoint, "https://pay.dlocal.example/3ds/start");
            assert_eq!(method, Method::Get);
            assert_eq!(form_fields.len(), 2);
            assert_eq!(form_fields.get("token").map(String::as_str), Some("abc def"));
            assert_eq!(form_fields.get("step").map(String::as_str), Some("1"));
        }
        _ => panic!("no form to redirect with"),
    }
    assert_eq!(recorded.resource_id, ResponseId::ConnectorTransactionId("D-4-abc".to_string()));
    assert!(recorded.nothing_else);
}

#[test]
fn a_redirect_url_without_query_becomes_a_form_without_fields() {
    let url = Url::parse("https://pay.dlocal.example/3ds").unwrap();
    let block = ThreeDSecureResData { redirect_url: Some(url) };
    let item = answer(DlocalPaymentStatus::Pending, Some(block));
    let data = RouterData::try_from(item).ok().expect("a record");
    match transaction(data.response).redirection_data {
        Some(RedirectForm::Form { endpoint, method, form_fields }) => {
            assert_eq!(endpoint, "https://pay.dlocal.example/3ds");
            assert_eq!(method, Method::Get);
            assert!(form_fields.is_empty());
        }
        _ => panic!("no form to redirect with"),
    }
}

#[test]
fn a_three_d_secure_block_without_url_redirects_nowhere() {
    let block = ThreeDSecureResData { redirect_url: None };
    let item = answer(DlocalPaymentStatus::Pending, Some(block));
    let data = RouterData::try_from(item).ok().expect("a record");
    assert!(transaction(data.response).redirection_data.is_none());
}

#[test]
fn an_authorization_is_recorded_with_the_status_of_the_table() {
    let table = [
        (DlocalPaymentStatus::Authorized, AttemptStatus::Authorized),
        (DlocalPaymentStatus::Verified, AttemptStatus::Authorized),
        (DlocalPaymentStatus::Paid, AttemptStatus::Charged),
        (DlocalPaymentStatus::Pending, AttemptStatus::AuthenticationPending),
        (DlocalPaymentStatus::Cancelled, AttemptStatus::Voided),
        (DlocalPaymentStatus::Rejected, AttemptStatus::AuthenticationFailed),
    ];
    for (status, expected) in table {
        let data = RouterData::try_from(answer(status, None)).ok().expect("a record");
        assert_eq!(data.status, expected);
    }
}

#[test]
fn an_answer_without_order_is_recorded_without_reference() {
    let mut item = answer(DlocalPaymentStatus::Paid, None);
    item.response.order_id = None;
    let data = RouterData::try_from(item).ok().expect("a record");
    assert_eq!(transaction(data.response).reference_id, None);
}

#[test]
fn a_sync_answer_is_recorded() {
    let request = PaymentsSyncData {
        connector_transaction_id: ResponseId::ConnectorTransactionId("D-4-abc".to_string()),
    };
    let item: ResponseRouterData<PSync, _, PaymentsSyncData, PaymentsResponseData> =
        ResponseRouterData {
            response: DlocalPaymentsSyncResponse {
                status: DlocalPaymentStatus::Paid,
                id: "D-4-abc".to_string(),
                order_id: Some("ref_77".to_string()),
            },
            data: pending(request),
            http_code: 200,
        };
    let data = RouterData::try_from(item).ok().expect("a record");
    assert_eq!(data.status, AttemptStatus::Charged);
    unchanged(
        &data,
        PaymentsSyncData {
            connector_transaction_id: ResponseId::ConnectorTransactionId("D-4-abc".to_string()),
        },
    );
    let recorded = transaction(data.response);
    assert_eq!(recorded.resource_id, ResponseId::ConnectorTransactionId("D-4-abc".to_string()));
    assert!(recorded.redirection_data.is_none());
    assert_eq!(recorded.reference_id.as_deref(), Some("ref_77"));
    assert!(recorded.nothing_else);
}

#[test]
fn a_capture_answer_is_recorded() {
    let request = || PaymentsCaptureData {
        amount_to_capture: 750,
        currency: Currency::new("BRL".to_string()),
        connector_transaction_id: "D-4-abc".to_string(),
    };
    let item: ResponseRouterData<Capture, _, PaymentsCaptureData, PaymentsResponseData> =
        ResponseRouterData {
            response: DlocalPaymentsCaptureResponse {
                status: DlocalPaymentStatus::Paid,
                id: "D-4-cap".to_string(),
                order_id: None,
            },
            data: pending(request()),
            http_code: 200,
        };
    let data = RouterData::try_from(item).ok().expect("a record");
    assert_eq!(data.status, AttemptStatus::Charged);
    unchanged(&data, request());
    let recorded = transaction(data.response);
    assert_eq!(recorded.resource_id, ResponseId::ConnectorTransactionId("D-4-cap".to_string()));
    assert!(recorded.redirection_data.is_none());
    assert_eq!(recorded.reference_id, None);
    assert!(recorded.nothing_else);
}

#[test]
fn a_cancel_answer_is_recorded_under_its_order() {
    let request = || PaymentsCancelData {
        connector_transaction_id: "D-4-abc".to_string(),
        cancellation_reason: None,
    };
    let item: ResponseRouterData<Void, _, PaymentsCancelData, PaymentsResponseData> =
        ResponseRouterData {
            response: DlocalPaymentsCancelResponse {
                status: DlocalPaymentStatus::Cancelled,
                order_id: "ref_77".to_string(),
            },
            data: pending(request()),
            http_code: 200,
        };
    let data = RouterData::try_from(item).ok().expect("a record");
    assert_eq!(data.status, AttemptStatus::Voided);
    unchanged(&data, request());
    let recorded = transaction(data.response);
    assert_eq!(recorded.resource_id, ResponseId::ConnectorTransactionId("ref_77".to_string()));
    assert!(recorded.redirection_data.is_none());
    assert_eq!(recorded.reference_id.as_deref(), Some("ref_77"));
    assert!(recorded.nothing_else);
}

fn refund() -> RefundsData {
    RefundsData {
        refund_id: "ref_refund_1".to_string(),
        connector_transaction_id: "D-4-abc".to_string(),
        connector_refund_id: None,
        currency: Currency::new("BRL".to_string()),
        refund_amount: 1500,
    }
}

#[test]
fn a_refund_answer_is_recorded() {
    let item: ResponseRouterData<Execute, _, RefundsData, RefundsResponseData> =
        ResponseRouterData {
            response: RefundResponse { id: "REF-D-9".to_string(), status: RefundStatus::Success },
            data: pending(refund()),
            http_code: 200,
        };
    let data = RouterData::try_from(item).ok().expect("a record");
    assert_eq!(data.status, AttemptStatus::Started);
    unchanged(&data, refund());
    assert_eq!(
        data.response,
        Ok(RefundsResponseData {
            connector_refund_id: "REF-D-9".to_string(),
            refund_status: enums::RefundStatus::Success,
        })
    );
}

#[test]
fn a_refund_sync_answer_is_recorded() {
    let table = [
        (RefundStatus::Success, enums::RefundStatus::Success),
        (RefundStatus::Pending, enums::RefundStatus::Pending),
        (RefundStatus::Rejected, enums::RefundStatus::ManualReview),
        (RefundStatus::Cancelled, enums::RefundStatus::Failure),
    ];
    for (status, expected) in table {
        let item: ResponseRouterData<RSync, _, RefundsData, RefundsResponseData> =
            ResponseRouterData {
                response: RefundResponse { id: "REF-D-9".to_string(), status },
                data: pending(refund()),
                http_code: 200,
            };
        let data = RouterData::try_from(item).ok().expect("a record");
        assert_eq!(data.status, AttemptStatus::Started);
        unchanged(&data, refund());
        assert_eq!(
            data.response,
            Ok(RefundsResponseData {
                connector_refund_id: "REF-D-9".to_string(),
                refund_status: expected,
            })
        );
    }
}

#[test]
fn an_error_payload_holds_code_message_and_parameter() {
    let payload = DlocalErrorResponse {
        code: 5001,
        message: "Invalid parameter".to_string(),
        param: Some("payer.document".to_string()),
    };
    assert_eq!(payload.code, 5001);
    assert_eq!(payload.message, "Invalid parameter");
    assert_eq!(payload.param.as_deref(), Some("payer.document"));
}

#[test]
fn an_empty_answer_is_pending() {
    assert_eq!(DlocalPaymentsResponse::default().status, DlocalPaymentStatus::Pending);
    assert_eq!(DlocalPaymentsResponse::default().id, "");
    assert_eq!(DlocalPaymentsResponse::default().three_dsecure, None);
    assert_eq!(DlocalPaymentsSyncResponse::default().status, DlocalPaymentStatus::Pending);
    assert_eq!(DlocalPaymentsCaptureResponse::default().status, DlocalPaymentStatus::Pending);
    assert_eq!(RefundResponse::default().status, RefundStatus::Pending);
    assert_eq!(
        DlocalErrorResponse::default(),
        DlocalErrorResponse { code: 0, message: String::new(), param: None }
    );
}

#[test]
fn a_copy_of_an_authorization_answer_holds_the_same() {
    let url = Url::parse("https://pay.dlocal.example/3ds?token=abc").unwrap();
    let answer = DlocalPaymentsResponse {
        status: DlocalPaymentStatus::Pending,
        id: "D-4-abc".to_string(),
        three_dsecure: Some(ThreeDSecureResData { redirect_url: Some(url) }),
        order_id: Some("ref_77".to_string()),
    };
    assert_eq!(answer.clone(), answer);
}

#[test]
fn an_answer_gives_the_status_and_the_response_to_record() {
    let answer = DlocalPaymentsSyncResponse {
        status: DlocalPaymentStatus::Rejected,
        id: "D-4-abc".to_string(),
        order_id: None,
    };
    let (status, response) = Answer::<PSync, PaymentsResponseData>::record(
        answer,
        AttemptStatus::Started,
    );
    assert_eq!(status, AttemptStatus::AuthenticationFailed);
    let recorded = transaction(Ok(response));
    assert_eq!(recorded.resource_id, ResponseId::ConnectorTransactionId("D-4-abc".to_string()));
    let refund = RefundResponse { id: "REF-D-9".to_string(), status: RefundStatus::Cancelled };
    let (status, response) = Answer::<RSync, RefundsResponseData>::record(
        refund,
        AttemptStatus::Charged,
    );
    assert_eq!(status, AttemptStatus::Charged);
    assert_eq!(response.refund_status, enums::RefundStatus::Failure);
}
