use dlocal_connector::address::AddressDetails;
use dlocal_connector::authorize::{
    Card, DlocalPaymentsRequest, PaymentMethodFlow, PaymentMethodId, Payer,
};
use dlocal_connector::enums::{CountryAlpha2, Currency};
use dlocal_connector::errors::{ConnectorError, ValidationError};
use dlocal_connector::pii::{CardNumber, Email, Secret};
use dlocal_connector::requests::DlocalRefundsSyncRequest;
use dlocal_connector::responses::{
    DlocalPaymentsCaptureResponse, DlocalPaymentsSyncResponse, RefundResponse,
};
use dlocal_connector::router_request_types::ResponseId;
use dlocal_connector::status::{DlocalPaymentStatus, RefundStatus};

fn named(first: Option<&str>, last: Option<&str>) -> AddressDetails {
    AddressDetails {
        country: None,
        first_name: first.map(|name| Secret::new(name.to_string())),
        last_name: last.map(|name| Secret::new(name.to_string())),
    }
}

#[test]
fn a_secret_gives_back_what_it_holds() {
    let secret = Secret::new("s3cr3t".to_string());
    assert_eq!(secret.peek(), "s3cr3t");
    assert_eq!(secret.clone().peek(), "s3cr3t");
    assert_eq!(Secret::default().peek(), "");
    assert_eq!(Email::new("a@b.c".to_string()).clone().peek(), "a@b.c");
    assert_eq!(CardNumber::new("4242".to_string()).clone().peek(), "4242");
    assert_eq!(CardNumber::default().peek(), "");
}

#[test]
fn currencies_and_countries_are_their_codes() {
    assert_eq!(Currency::new("BRL".to_string()).to_string(), "BRL");
    assert_eq!(Currency::new("BRL".to_string()).clone(), Currency::new("BRL".to_string()));
    assert_eq!(Currency::default().to_string(), "USD");
    assert_eq!(CountryAlpha2::new("BR".to_string()).to_string(), "BR");
    assert_eq!(CountryAlpha2::new("BR".to_string()).clone().to_string(), "BR");
}

#[test]
fn the_full_name_joins_first_and_last_name() {
    let full = |first, last| named(first, last).get_optional_full_name().map(|n| n.peek().clone());
    assert_eq!(full(Some("Ana"), Some("Souza")).as_deref(), Some("Ana Souza"));
    assert_eq!(full(Some("Ana"), None).as_deref(), Some("Ana"));
    assert_eq!(full(None, Some("Souza")).as_deref(), Some("Souza"));
    assert_eq!(full(None, None), None);
    assert_eq!(full(Some(""), Some("")).as_deref(), Some(" "));
}

#[test]
fn the_country_of_an_address_is_required() {
    let mut address = named(None, None);
    assert_eq!(
        address.get_country(),
        Err(ConnectorError::MissingRequiredField { field_name: "address.country" })
    );
    address.country = Some(CountryAlpha2::new("ZA".to_string()));
    assert_eq!(address.get_country().map(CountryAlpha2::to_string).as_deref(), Ok("ZA"));
}

#[test]
fn only_a_transaction_id_of_the_connector_is_one() {
    assert_eq!(
        ResponseId::ConnectorTransactionId("D-1".to_string()).get_connector_transaction_id(),
        Ok("D-1".to_string())
    );
    for id in [ResponseId::NoResponseId, ResponseId::EncodedData("e30=".to_string())] {
        assert_eq!(
            id.get_connector_transaction_id(),
            Err(ValidationError::IncorrectValueProvided { field_name: "connector_transaction_id" })
        );
    }
}

#[test]
fn an_empty_request_is_a_direct_card_payment_of_nothing() {
    let request = DlocalPaymentsRequest::default();
    assert_eq!(request.amount, 0);
    assert_eq!(request.currency.to_string(), "USD");
    assert_eq!(request.country, "");
    assert_eq!(request.payment_method_id, PaymentMethodId::Card);
    assert_eq!(request.payment_method_flow, PaymentMethodFlow::Direct);
    assert!(request.payer == Payer::default());
    assert!(request.payer.name.is_none());
    assert!(request.card.is_none());
    assert_eq!(request.three_dsecure, None);
    assert_eq!(request.callback_url, None);
    assert_eq!(request.description, None);
}

#[test]
fn a_copy_of_a_card_holds_the_same() {
    let card = Card {
        holder_name: Secret::new("Ana Souza".to_string()),
        number: CardNumber::new("4111111111111111".to_string()),
        cvv: Secret::new("123".to_string()),
        expiration_month: Secret::new("10".to_string()),
        expiration_year: Secret::new("2040".to_string()),
        capture: "true".to_string(),
        installments_id: Some("man_9".to_string()),
        installments: Some("1".to_string()),
    };
    assert!(card.clone() == card);
    assert!(Card::default() != card);
}

#[test]
fn a_copy_of_an_answer_holds_the_same() {
    let sync = DlocalPaymentsSyncResponse {
        status: DlocalPaymentStatus::Paid,
        id: "D-4-abc".to_string(),
        order_id: Some("ref_77".to_string()),
    };
    assert_eq!(sync.clone(), sync);
    let capture = DlocalPaymentsCaptureResponse {
        status: DlocalPaymentStatus::Authorized,
        id: "D-4-cap".to_string(),
        order_id: None,
    };
    assert_eq!(capture.clone(), capture);
    let refund = RefundResponse { id: "REF-D-9".to_string(), status: RefundStatus::Rejected };
    assert_eq!(refund.clone(), refund);
    let request = DlocalRefundsSyncRequest { refund_id: "REF-D-9".to_string() };
    assert_eq!(request.clone(), request);
}
