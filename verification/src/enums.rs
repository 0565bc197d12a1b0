//! The switch's connector-agnostic vocabularies.

use vstd::prelude::*;

verus! {

/// Universal payment-attempt lifecycle state.
#[derive(Clone, Copy, Debug, PartialEq, Eq, Structural, Hash)]
pub enum AttemptStatus {
    Started,
    AuthenticationFailed,
    RouterDeclined,
    AuthenticationPending,
    AuthenticationSuccessful,
    Authorized,
    AuthorizationFailed,
    Charged,
    Authorizing,
    CodInitiated,
    Voided,
    VoidInitiated,
    CaptureInitiated,
    CaptureFailed,
    VoidFailed,
    AutoRefunded,
    PartialCharged,
    PartialChargedAndChargeable,
    Unresolved,
    Pending,
    Failure,
    PaymentMethodAwaited,
    ConfirmationAwaited,
    DeviceDataCollectionPending,
}

/// Universal refund state.
#[derive(Clone, Copy, Debug, PartialEq, Eq, Structural, Hash)]
pub enum RefundStatus {
    Failure,
    ManualReview,
    Pending,
    Success,
    TransactionFailure,
}

/// When the funds of an authorized payment are captured.
#[derive(Clone, Copy, Debug, PartialEq, Eq, Structural, Hash)]
pub enum CaptureMethod {
    Automatic,
    Manual,
    ManualMultiple,
    Scheduled,
    SequentialAutomatic,
}

/// Whether the cardholder is to be authenticated with 3-D Secure.
#[derive(Clone, Copy, Debug, PartialEq, Eq, Structural, Hash)]
pub enum AuthenticationType {
    ThreeDs,
    NoThreeDs,
}

/// HTTP method of a request or of a redirection.
#[derive(Clone, Copy, Debug, PartialEq, Eq, Structural, Hash)]
pub enum Method {
    Get,
    Post,
    Put,
    Delete,
    Patch,
}

/// The denomination in which a connector expects amounts.
#[derive(Clone, Copy, Debug, PartialEq, Eq, Structural, Hash)]
pub enum CurrencyUnit {
    Base,
    Minor,
}

/// A currency, held as its three-letter ISO 4217 code.
#[derive(Debug, PartialEq, Eq)]
pub struct Currency {
    code: String,
}

impl View for Currency {
    type V = Seq<char>;

    closed spec fn view(&self) -> Seq<char> {
        self.code@
    }
}

impl Currency {
    /// The currency with this code.
    pub fn new(code: String) -> (currency: Self)
        ensures
            currency@ == code@,
    {
        Currency { code }
    }

    /// The ISO code, as it goes onto the wire.
    pub fn to_string(&self) -> (code: String)
        ensures
            code@ == self@,
    {
        self.code.clone()
    }
}

impl Default for Currency {
    /// The United States dollar.
    fn default() -> (currency: Self)
        ensures
            currency@ == "USD"@,
    {
        Currency { code: "USD".to_owned() }
    }
}

impl Clone for Currency {
    fn clone(&self) -> (copy: Self)
        ensures
            copy@ == self@,
    {
        Currency { code: self.code.clone() }
    }
}

/// A country, held as its two-letter ISO 3166-1 code.
#[derive(Debug, PartialEq, Eq)]
pub struct CountryAlpha2 {
    code: String,
}

impl View for CountryAlpha2 {
    type V = Seq<char>;

    closed spec fn view(&self) -> Seq<char> {
        self.code@
    }
}

impl CountryAlpha2 {
    /// The country with this code.
    pub fn new(code: String) -> (country: Self)
        ensures
            country@ == code@,
    {
        CountryAlpha2 { code }
    }

    /// The ISO code, as it goes onto the wire.
    pub fn to_string(&self) -> (code: String)
        ensures
            code@ == self@,
    {
        self.code.clone()
    }
}

impl Clone for CountryAlpha2 {
    fn clone(&self) -> (copy: Self)
        ensures
            copy@ == self@,
    {
        CountryAlpha2 { code: self.code.clone() }
    }
}

} // verus!
