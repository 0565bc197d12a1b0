//! The request that authorizes a payment, and how it is built from the
//! switch's record of the payment.

use vstd::prelude::*;
use vstd::string::StringExecFns;
use crate::address::AddressDetails;
use crate::enums::{AuthenticationType, CaptureMethod, Currency};
use crate::errors::{
    get_unimplemented_payment_method_error_message, unimplemented_payment_method_message,
    ConnectorError, ConnectorErrorView,
};
use crate::identification::{fallback_document, get_doc_from_currency};
use crate::payment_method_data::PaymentMethodData;
use crate::pii::{CardNumber, Email, Secret};
use crate::views::{result_view, view_of};
use crate::requests::DlocalRouterData;
use crate::router_data::PaymentsAuthorizeRouterData;
use crate::router_request_types::MandateIds;
use crate::text::{bool_to_string, flag, trim, trimmed};

verus! {

/// Who pays.
#[derive(Default, PartialEq, Eq)]
pub struct Payer {
    pub name: Option<Secret>,
    pub email: Option<Email>,
    pub document: Secret,
}

/// A [`Payer`] with its texts as sequences of characters.
pub struct PayerView {
    pub name: Option<Seq<char>>,
    pub email: Option<Seq<char>>,
    pub document: Seq<char>,
}

impl View for Payer {
    type V = PayerView;

    open spec fn view(&self) -> PayerView {
        PayerView {
            name: view_of(self.name),
            email: view_of(self.email),
            document: self.document@,
        }
    }
}

/// The card that is charged.
#[derive(Default, PartialEq, Eq)]
pub struct Card {
    pub holder_name: Secret,
    pub number: CardNumber,
    pub cvv: Secret,
    pub expiration_month: Secret,
    pub expiration_year: Secret,
    /// `true` where the funds are to be captured with the authorization.
    pub capture: String,
    pub installments_id: Option<String>,
    pub installments: Option<String>,
}

/// A [`Card`] with its texts as sequences of characters.
pub struct CardView {
    pub holder_name: Seq<char>,
    pub number: Seq<char>,
    pub cvv: Seq<char>,
    pub expiration_month: Seq<char>,
    pub expiration_year: Seq<char>,
    pub capture: Seq<char>,
    pub installments_id: Option<Seq<char>>,
    pub installments: Option<Seq<char>>,
}

impl View for Card {
    type V = CardView;

    open spec fn view(&self) -> CardView {
        CardView {
            holder_name: self.holder_name@,
            number: self.number@,
            cvv: self.cvv@,
            expiration_month: self.expiration_month@,
            expiration_year: self.expiration_year@,
            capture: self.capture@,
            installments_id: view_of(self.installments_id),
            installments: view_of(self.installments),
        }
    }
}

impl Clone for Card {
    fn clone(&self) -> (copy: Self)
        ensures
            copy@ == self@,
    {
        Card {
            holder_name: self.holder_name.clone(),
            number: self.number.clone(),
            cvv: self.cvv.clone(),
            expiration_month: self.expiration_month.clone(),
            expiration_year: self.expiration_year.clone(),
            capture: self.capture.clone(),
            installments_id: self.installments_id.clone(),
            installments: self.installments.clone(),
        }
    }
}

/// Whether the processor is to insist on 3-D Secure.
#[derive(Clone, Copy, Debug, Default, PartialEq, Eq, Structural)]
pub struct ThreeDSecureReqData {
    pub force: bool,
}

/// The payment method of a request. The processor is asked for cards alone.
#[derive(Clone, Copy, Debug, PartialEq, Eq, Structural)]
pub enum PaymentMethodId {
    Card,
}

impl PaymentMethodId {
    /// The token that stands for this payment method on the wire.
    pub fn as_wire(&self) -> (token: &'static str)
        ensures
            token@ == "CARD"@,
    {
        "CARD"
    }
}

impl Default for PaymentMethodId {
    fn default() -> (id: Self)
        ensures
            id == PaymentMethodId::Card,
    {
        PaymentMethodId::Card
    }
}

/// Whether the processor takes the payment itself or sends the customer on.
#[derive(Clone, Copy, Debug, PartialEq, Eq, Structural)]
pub enum PaymentMethodFlow {
    Direct,
    ReDirect,
}

impl PaymentMethodFlow {
    /// The token that stands for this flow on the wire.
    pub fn as_wire(&self) -> (token: &'static str)
        ensures
            token@ == match *self {
                PaymentMethodFlow::Direct => "DIRECT"@,
                PaymentMethodFlow::ReDirect => "REDIRECT"@,
            },
    {
        match self {
            PaymentMethodFlow::Direct => "DIRECT",
            PaymentMethodFlow::ReDirect => "REDIRECT",
        }
    }
}

impl Default for PaymentMethodFlow {
    fn default() -> (flow: Self)
        ensures
            flow == PaymentMethodFlow::Direct,
    {
        PaymentMethodFlow::Direct
    }
}

/// Authorizes a payment.
#[derive(Default, PartialEq, Eq)]
pub struct DlocalPaymentsRequest {
    pub amount: i64,
    pub currency: Currency,
    pub country: String,
    pub payment_method_id: PaymentMethodId,
    pub payment_method_flow: PaymentMethodFlow,
    pub payer: Payer,
    pub card: Option<Card>,
    pub order_id: String,
    pub three_dsecure: Option<ThreeDSecureReqData>,
    pub callback_url: Option<String>,
    pub description: Option<String>,
}

/// A [`DlocalPaymentsRequest`] with its texts as sequences of characters.
pub struct DlocalPaymentsRequestView {
    pub amount: i64,
    pub currency: Seq<char>,
    pub country: Seq<char>,
    pub payment_method_id: PaymentMethodId,
    pub payment_method_flow: PaymentMethodFlow,
    pub payer: PayerView,
    pub card: Option<CardView>,
    pub order_id: Seq<char>,
    pub three_dsecure: Option<ThreeDSecureReqData>,
    pub callback_url: Option<Seq<char>>,
    pub description: Option<Seq<char>>,
}

impl View for DlocalPaymentsRequest {
    type V = DlocalPaymentsRequestView;

    open spec fn view(&self) -> DlocalPaymentsRequestView {
        DlocalPaymentsRequestView {
            amount: self.amount,
            currency: self.currency@,
            country: self.country@,
            payment_method_id: self.payment_method_id,
            payment_method_flow: self.payment_method_flow,
            payer: self.payer@,
            card: view_of(self.card),
            order_id: self.order_id@,
            three_dsecure: self.three_dsecure,
            callback_url: view_of(self.callback_url),
            description: view_of(self.description),
        }
    }
}

/// The name of the payer on an address: first and last name with a space
/// between them and no white space around, if that leaves anything.
pub open spec fn payer_name(address: AddressDetails) -> Option<Seq<char>> {
    let first = match address.first_name {
        Some(name) => name@,
        None => Seq::empty(),
    };
    let last = match address.last_name {
        Some(name) => name@,
        None => Seq::empty(),
    };
    let name = trimmed(first + " "@ + last);
    if name.len() > 0 {
        Some(name)
    } else {
        None
    }
}

/// Reads the name of the payer off the billing address.
pub fn get_payer_name(address: &AddressDetails) -> (name: Option<Secret>)
    ensures
        view_of(name) == payer_name(*address),
{
    let mut joined = match &address.first_name {
        Some(first) => first.peek().clone(),
        None => String::new(),
    };
    joined.append(" ");
    match &address.last_name {
        Some(last) => joined.append(last.peek().as_str()),
        None => {
            assert(joined@ + Seq::<char>::empty() == joined@);
        },
    }
    let name = trim(joined.as_str());
    if !name.as_str().is_empty() {
        Some(Secret::new(name))
    } else {
        None
    }
}

/// Whether the funds are captured together with the authorization.
pub open spec fn should_capture(capture_method: Option<CaptureMethod>) -> bool {
    capture_method == Some(CaptureMethod::Automatic) || capture_method == Some(
        CaptureMethod::SequentialAutomatic,
    )
}

/// The 3-D Secure block of a request: present, and forcing the
/// authentication, exactly where the payment asks for 3-D Secure.
pub open spec fn three_dsecure_block(auth_type: AuthenticationType) -> Option<
    ThreeDSecureReqData,
> {
    match auth_type {
        AuthenticationType::ThreeDs => Some(ThreeDSecureReqData { force: true }),
        AuthenticationType::NoThreeDs => None,
    }
}

/// The identifier of the mandate under which a payment recurs, if it has one.
pub open spec fn installments_id(mandate: Option<MandateIds>) -> Option<Seq<char>> {
    match mandate {
        Some(ids) => view_of(ids.mandate_id),
        None => None,
    }
}

/// The number of installments: one where the payment recurs under a mandate
/// that has an identifier, and none otherwise.
pub open spec fn installments(mandate: Option<MandateIds>) -> Option<Seq<char>> {
    match installments_id(mandate) {
        Some(_) => Some("1"@),
        None => None,
    }
}

/// The request that authorizes a payment, or why there is none.
///
/// The billing address and its country are looked for first; then the payment
/// method must be a card; then the URL to come back to must be there.
pub open spec fn authorize_request(
    item: DlocalRouterData<&PaymentsAuthorizeRouterData>,
) -> Result<DlocalPaymentsRequestView, ConnectorErrorView> {
    let data = item.router_data;
    match data.billing_address() {
        None => Err(ConnectorErrorView::MissingRequiredField { field_name: "billing.address"@ }),
        Some(address) => match address.country {
            None => Err(
                ConnectorErrorView::MissingRequiredField { field_name: "address.country"@ },
            ),
            Some(country) => match data.request.payment_method_data {
                PaymentMethodData::Card(card) => match data.request.router_return_url {
                    None => Err(
                        ConnectorErrorView::MissingRequiredField { field_name: "return_url"@ },
                    ),
                    Some(return_url) => Ok(
                        DlocalPaymentsRequestView {
                            amount: item.amount,
                            currency: data.request.currency@,
                            country: country@,
                            payment_method_id: PaymentMethodId::Card,
                            payment_method_flow: PaymentMethodFlow::Direct,
                            payer: PayerView {
                                name: payer_name(address),
                                email: view_of(data.request.email),
                                document: fallback_document(country@),
                            },
                            card: Some(
                                CardView {
                                    holder_name: match data.billing_full_name() {
                                        Some(name) => name,
                                        None => Seq::empty(),
                                    },
                                    number: card.card_number@,
                                    cvv: card.card_cvc@,
                                    expiration_month: card.card_exp_month@,
                                    expiration_year: card.card_exp_year@,
                                    capture: flag(should_capture(data.request.capture_method)),
                                    installments_id: installments_id(data.request.mandate_id),
                                    installments: installments(data.request.mandate_id),
                                },
                            ),
                            order_id: data.connector_request_reference_id@,
                            three_dsecure: three_dsecure_block(data.auth_type),
                            callback_url: Some(return_url@),
                            description: view_of(data.description),
                        },
                    ),
                },
                _ => Err(
                    ConnectorErrorView::NotImplemented(
                        unimplemented_payment_method_message("Dlocal"@),
                    ),
                ),
            },
        },
    }
}

impl DlocalPaymentsRequest {
    /// Builds the request that authorizes a payment.
    pub fn try_from(item: &DlocalRouterData<&PaymentsAuthorizeRouterData>) -> (built: Result<
        Self,
        ConnectorError,
    >)
        ensures
            result_view(built) == authorize_request(*item),
    {
        let data = item.router_data;
        let address = match data.get_billing_address() {
            Ok(address) => address,
            Err(error) => {
                return Err(error);
            },
        };
        let country = match address.get_country() {
            Ok(country) => country,
            Err(error) => {
                return Err(error);
            },
        };
        let name = get_payer_name(address);
        match &data.request.payment_method_data {
            PaymentMethodData::Card(ccard) => {
                let should_capture = match data.request.capture_method {
                    Some(CaptureMethod::Automatic) => true,
                    Some(CaptureMethod::SequentialAutomatic) => true,
                    _ => false,
                };
                let holder_name = match data.get_optional_billing_full_name() {
                    Some(name) => name,
                    None => Secret::new(String::new()),
                };
                let installments_id = match &data.request.mandate_id {
                    Some(ids) => match &ids.mandate_id {
                        Some(id) => Some(id.clone()),
                        None => None,
                    },
                    None => None,
                };
                let installments = match &installments_id {
                    Some(_) => Some("1".to_owned()),
                    None => None,
                };
                let three_dsecure = match data.auth_type {
                    AuthenticationType::ThreeDs => Some(ThreeDSecureReqData { force: true }),
                    AuthenticationType::NoThreeDs => None,
                };
                let callback_url = match data.request.get_router_return_url() {
                    Ok(url) => url,
                    Err(error) => {
                        return Err(error);
                    },
                };
                let email = match &data.request.email {
                    Some(email) => Some(email.clone()),
                    None => None,
                };
                let description = match &data.description {
                    Some(description) => Some(description.clone()),
                    None => None,
                };
                Ok(
                    DlocalPaymentsRequest {
                        amount: item.amount,
                        currency: data.request.currency.clone(),
                        payment_method_id: PaymentMethodId::Card,
                        payment_method_flow: PaymentMethodFlow::Direct,
                        country: country.to_string(),
                        payer: Payer {
                            name,
                            email,
                            document: get_doc_from_currency(country.to_string()),
                        },
                        card: Some(
                            Card {
                                holder_name,
                                number: ccard.card_number.clone(),
                                cvv: ccard.card_cvc.clone(),
                                expiration_month: ccard.card_exp_month.clone(),
                                expiration_year: ccard.card_exp_year.clone(),
                                capture: bool_to_string(should_capture),
                                installments_id,
                                installments,
                            },
                        ),
                        order_id: data.connector_request_reference_id.clone(),
                        three_dsecure,
                        callback_url: Some(callback_url),
                        description,
                    },
                )
            },
            PaymentMethodData::CardRedirect
            | PaymentMethodData::Wallet
            | PaymentMethodData::PayLater
            | PaymentMethodData::BankRedirect
            | PaymentMethodData::BankDebit
            | PaymentMethodData::BankTransfer
            | PaymentMethodData::Crypto
            | PaymentMethodData::MandatePayment
            | PaymentMethodData::Reward
            | PaymentMethodData::RealTimePayment
            | PaymentMethodData::MobilePayment
            | PaymentMethodData::Upi
            | PaymentMethodData::Voucher
            | PaymentMethodData::GiftCard
            | PaymentMethodData::OpenBanking
            | PaymentMethodData::CardToken
            | PaymentMethodData::NetworkToken
            | PaymentMethodData::CardDetailsForNetworkTransactionId => Err(
                ConnectorError::NotImplemented(
                    get_unimplemented_payment_method_error_message("Dlocal"),
                ),
            ),
        }
    }
}

/// An authorization request says `true` for capture exactly where the payment
/// is captured automatically, at once or in sequence, and `false` otherwise.
pub proof fn capture_flag_follows_capture_method(
    item: DlocalRouterData<&PaymentsAuthorizeRouterData>,
)
    ensures
        authorize_request(item) matches Ok(request) ==> {
            let method = item.router_data.request.capture_method;
            let automatic = method == Some(CaptureMethod::Automatic) || method == Some(
                CaptureMethod::SequentialAutomatic,
            );
            &&& request.card matches Some(card)
            &&& card.capture == "true"@ <==> automatic
            &&& card.capture == "false"@ <==> !automatic
        },
{
    reveal_strlit("true");
    reveal_strlit("false");
    assert("true"@.len() != "false"@.len());
}

/// No authorization request is built for a payment whose billing address has
/// no country, or that has no billing address: the field is reported as
/// missing, whatever else the payment holds.
pub proof fn billing_country_is_required(item: DlocalRouterData<&PaymentsAuthorizeRouterData>)
    ensures
        item.router_data.billing_address() matches Some(address) && address.country is None
            ==> authorize_request(item) == Err::<DlocalPaymentsRequestView, ConnectorErrorView>(
            ConnectorErrorView::MissingRequiredField { field_name: "address.country"@ },
        ),
        item.router_data.billing_address() is None ==> authorize_request(item) == Err::<
            DlocalPaymentsRequestView,
            ConnectorErrorView,
        >(ConnectorErrorView::MissingRequiredField { field_name: "billing.address"@ }),
{
}

/// An authorization request for a payment under 3-D Secure forces the
/// authentication; one for a payment without it has no 3-D Secure block.
pub proof fn three_dsecure_follows_authentication_type(
    item: DlocalRouterData<&PaymentsAuthorizeRouterData>,
)
    ensures
        authorize_request(item) matches Ok(request) ==> {
            &&& item.router_data.auth_type == AuthenticationType::ThreeDs ==> request.three_dsecure
                == Some(ThreeDSecureReqData { force: true })
            &&& item.router_data.auth_type == AuthenticationType::NoThreeDs
                ==> request.three_dsecure is None
        },
{
}

/// An authorization request carries the installment fields exactly where the
/// payment recurs under a mandate that has an identifier: then it asks for
/// one installment under that identifier.
pub proof fn installments_follow_mandate_id(item: DlocalRouterData<&PaymentsAuthorizeRouterData>)
    ensures
        authorize_request(item) matches Ok(request) ==> {
            let id = match item.router_data.request.mandate_id {
                Some(ids) => view_of(ids.mandate_id),
                None => None,
            };
            &&& request.card matches Some(card)
            &&& card.installments_id == id
            &&& id is Some ==> card.installments == Some("1"@)
            &&& id is None ==> card.installments is None
        },
{
}

/// Every authorization request that is built names the card as its payment
/// method, goes the direct way and carries a card.
pub proof fn authorization_is_by_card(item: DlocalRouterData<&PaymentsAuthorizeRouterData>)
    ensures
        authorize_request(item) matches Ok(request) ==> {
            &&& item.router_data.request.payment_method_data is Card
            &&& request.payment_method_id == PaymentMethodId::Card
            &&& request.payment_method_flow == PaymentMethodFlow::Direct
            &&& request.card is Some
        },
{
}

/// For a payment with a billing country and any payment method but a card,
/// no authorization request is built: the payment method is reported as not
/// implemented, in a message that ends with the name of the connector.
pub proof fn other_payment_methods_are_refused(
    item: DlocalRouterData<&PaymentsAuthorizeRouterData>,
)
    requires
        item.router_data.billing_address() matches Some(address) && address.country is Some,
        !(item.router_data.request.payment_method_data is Card),
    ensures
        authorize_request(item) matches Err(ConnectorErrorView::NotImplemented(message)) && {
            &&& message == "Selected payment method through "@ + "Dlocal"@
            &&& message.len() >= "Dlocal"@.len()
            &&& message.subrange(message.len() - "Dlocal"@.len(), message.len() as int)
                == "Dlocal"@
        },
{
    let message = "Selected payment method through "@ + "Dlocal"@;
    let start = message.len() - "Dlocal"@.len();
    assert(message.subrange(start, message.len() as int) =~= "Dlocal"@);
}

/// The document of the payer depends on nothing but the billing country: two
/// payments from the same country carry the same document.
pub proof fn document_depends_on_country_alone(
    one: DlocalRouterData<&PaymentsAuthorizeRouterData>,
    other: DlocalRouterData<&PaymentsAuthorizeRouterData>,
)
    requires
        one.router_data.billing_country() == other.router_data.billing_country(),
    ensures
        authorize_request(one) is Ok && authorize_request(other) is Ok ==> authorize_request(
            one,
        )->Ok_0.payer.document == authorize_request(other)->Ok_0.payer.document,
{
}

} // verus!
