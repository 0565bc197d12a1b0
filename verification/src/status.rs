//! The processor's status vocabularies and what each status means to the
//! switch.

use vstd::prelude::*;
use vstd::std_specs::convert::FromSpecImpl;
use crate::enums;
use crate::views::view_of;
use crate::text::same_text;

verus! {

/// Payment status as the processor reports it.
#[derive(Clone, Copy, Debug, PartialEq, Eq, Structural, Hash)]
pub enum DlocalPaymentStatus {
    Authorized,
    Paid,
    Verified,
    Cancelled,
    Pending,
    Rejected,
}

impl Default for DlocalPaymentStatus {
    /// The status of a payload that carries no status field.
    fn default() -> (status: Self)
        ensures
            status == DlocalPaymentStatus::Pending,
    {
        DlocalPaymentStatus::Pending
    }
}

/// The token that stands for a payment status on the wire.
pub open spec fn payment_status_token(status: DlocalPaymentStatus) -> Seq<char> {
    match status {
        DlocalPaymentStatus::Authorized => "AUTHORIZED"@,
        DlocalPaymentStatus::Paid => "PAID"@,
        DlocalPaymentStatus::Verified => "VERIFIED"@,
        DlocalPaymentStatus::Cancelled => "CANCELLED"@,
        DlocalPaymentStatus::Pending => "PENDING"@,
        DlocalPaymentStatus::Rejected => "REJECTED"@,
    }
}

/// The payment status that a token of the wire stands for, if it stands for
/// any.
pub open spec fn payment_status_of(token: Seq<char>) -> Option<DlocalPaymentStatus> {
    if token == "AUTHORIZED"@ {
        Some(DlocalPaymentStatus::Authorized)
    } else if token == "PAID"@ {
        Some(DlocalPaymentStatus::Paid)
    } else if token == "VERIFIED"@ {
        Some(DlocalPaymentStatus::Verified)
    } else if token == "CANCELLED"@ {
        Some(DlocalPaymentStatus::Cancelled)
    } else if token == "PENDING"@ {
        Some(DlocalPaymentStatus::Pending)
    } else if token == "REJECTED"@ {
        Some(DlocalPaymentStatus::Rejected)
    } else {
        None
    }
}

impl DlocalPaymentStatus {
    /// The token that stands for this status on the wire.
    pub fn as_wire(&self) -> (token: &'static str)
        ensures
            token@ == payment_status_token(*self),
    {
        match self {
            DlocalPaymentStatus::Authorized => "AUTHORIZED",
            DlocalPaymentStatus::Paid => "PAID",
            DlocalPaymentStatus::Verified => "VERIFIED",
            DlocalPaymentStatus::Cancelled => "CANCELLED",
            DlocalPaymentStatus::Pending => "PENDING",
            DlocalPaymentStatus::Rejected => "REJECTED",
        }
    }

    /// Reads a status off the wire. A token that names none of the six
    /// statuses is refused: no status is made up for it.
    pub fn from_wire(token: &str) -> (status: Option<Self>)
        ensures
            status == payment_status_of(token@),
    {
        if same_text(token, "AUTHORIZED") {
            Some(DlocalPaymentStatus::Authorized)
        } else if same_text(token, "PAID") {
            Some(DlocalPaymentStatus::Paid)
        } else if same_text(token, "VERIFIED") {
            Some(DlocalPaymentStatus::Verified)
        } else if same_text(token, "CANCELLED") {
            Some(DlocalPaymentStatus::Cancelled)
        } else if same_text(token, "PENDING") {
            Some(DlocalPaymentStatus::Pending)
        } else if same_text(token, "REJECTED") {
            Some(DlocalPaymentStatus::Rejected)
        } else {
            None
        }
    }
}

/// The payment status that the status field of a payload gives: the default
/// where the payload has no such field, else what its token stands for.
pub open spec fn payment_status_field(field: Option<Seq<char>>) -> Option<DlocalPaymentStatus> {
    match field {
        None => Some(DlocalPaymentStatus::Pending),
        Some(token) => payment_status_of(token),
    }
}

impl DlocalPaymentStatus {
    /// Reads the status field of a payload. A payload without the field is
    /// pending; one whose field holds an unknown token has no status.
    pub fn from_wire_field(field: Option<&str>) -> (status: Option<Self>)
        ensures
            status == payment_status_field(view_of(field)),
    {
        match field {
            None => Some(DlocalPaymentStatus::default()),
            Some(token) => DlocalPaymentStatus::from_wire(token),
        }
    }
}

/// Every payment status is read back from its own token, and a token that is
/// read as a status is the token of that status.
pub proof fn payment_status_tokens_are_distinct(status: DlocalPaymentStatus, token: Seq<char>)
    ensures
        payment_status_of(payment_status_token(status)) == Some(status),
        payment_status_of(token) == Some(status) ==> token == payment_status_token(status),
{
    reveal_strlit("AUTHORIZED");
    reveal_strlit("PAID");
    reveal_strlit("VERIFIED");
    reveal_strlit("CANCELLED");
    reveal_strlit("PENDING");
    reveal_strlit("REJECTED");
    assert("AUTHORIZED"@.len() == 10);
    assert("PAID"@.len() == 4);
    assert("VERIFIED"@.len() == 8);
    assert("CANCELLED"@.len() == 9);
    assert("PENDING"@.len() == 7);
    assert("REJECTED"@.len() == 8);
    assert("VERIFIED"@[0] != "REJECTED"@[0]);
}

/// The attempt status that the switch records for a payment status of the
/// processor.
pub open spec fn attempt_status(status: DlocalPaymentStatus) -> enums::AttemptStatus {
    match status {
        DlocalPaymentStatus::Authorized => enums::AttemptStatus::Authorized,
        DlocalPaymentStatus::Verified => enums::AttemptStatus::Authorized,
        DlocalPaymentStatus::Paid => enums::AttemptStatus::Charged,
        DlocalPaymentStatus::Pending => enums::AttemptStatus::AuthenticationPending,
        DlocalPaymentStatus::Cancelled => enums::AttemptStatus::Voided,
        DlocalPaymentStatus::Rejected => enums::AttemptStatus::AuthenticationFailed,
    }
}

/// Each of the six payment statuses of the processor has its attempt status,
/// and none of them another.
pub proof fn attempt_status_table(status: DlocalPaymentStatus)
    ensures
        status == DlocalPaymentStatus::Authorized ==> attempt_status(status)
            == enums::AttemptStatus::Authorized,
        status == DlocalPaymentStatus::Verified ==> attempt_status(status)
            == enums::AttemptStatus::Authorized,
        status == DlocalPaymentStatus::Paid ==> attempt_status(status)
            == enums::AttemptStatus::Charged,
        status == DlocalPaymentStatus::Pending ==> attempt_status(status)
            == enums::AttemptStatus::AuthenticationPending,
        status == DlocalPaymentStatus::Cancelled ==> attempt_status(status)
            == enums::AttemptStatus::Voided,
        status == DlocalPaymentStatus::Rejected ==> attempt_status(status)
            == enums::AttemptStatus::AuthenticationFailed,
        status == DlocalPaymentStatus::Authorized || status == DlocalPaymentStatus::Verified
            || status == DlocalPaymentStatus::Paid || status == DlocalPaymentStatus::Pending
            || status == DlocalPaymentStatus::Cancelled || status == DlocalPaymentStatus::Rejected,
{
}

impl From<DlocalPaymentStatus> for enums::AttemptStatus {
    fn from(item: DlocalPaymentStatus) -> (status: Self)
        ensures
            status == attempt_status(item),
    {
        match item {
            DlocalPaymentStatus::Authorized => Self::Authorized,
            DlocalPaymentStatus::Verified => Self::Authorized,
            DlocalPaymentStatus::Paid => Self::Charged,
            DlocalPaymentStatus::Pending => Self::AuthenticationPending,
            DlocalPaymentStatus::Cancelled => Self::Voided,
            DlocalPaymentStatus::Rejected => Self::AuthenticationFailed,
        }
    }
}

impl FromSpecImpl<DlocalPaymentStatus> for enums::AttemptStatus {
    open spec fn obeys_from_spec() -> bool {
        true
    }

    open spec fn from_spec(item: DlocalPaymentStatus) -> enums::AttemptStatus {
        attempt_status(item)
    }
}

/// Refund status as the processor reports it.
#[derive(Clone, Copy, Debug, PartialEq, Eq, Structural, Hash)]
pub enum RefundStatus {
    Success,
    Pending,
    Rejected,
    Cancelled,
}

impl Default for RefundStatus {
    /// The status of a payload that carries no status field.
    fn default() -> (status: Self)
        ensures
            status == RefundStatus::Pending,
    {
        RefundStatus::Pending
    }
}

/// The token that stands for a refund status on the wire.
pub open spec fn refund_status_token(status: RefundStatus) -> Seq<char> {
    match status {
        RefundStatus::Success => "SUCCESS"@,
        RefundStatus::Pending => "PENDING"@,
        RefundStatus::Rejected => "REJECTED"@,
        RefundStatus::Cancelled => "CANCELLED"@,
    }
}

/// The refund status that a token of the wire stands for, if it stands for
/// any.
pub open spec fn refund_status_of(token: Seq<char>) -> Option<RefundStatus> {
    if token == "SUCCESS"@ {
        Some(RefundStatus::Success)
    } else if token == "PENDING"@ {
        Some(RefundStatus::Pending)
    } else if token == "REJECTED"@ {
        Some(RefundStatus::Rejected)
    } else if token == "CANCELLED"@ {
        Some(RefundStatus::Cancelled)
    } else {
        None
    }
}

impl RefundStatus {
    /// The token that stands for this status on the wire.
    pub fn as_wire(&self) -> (token: &'static str)
        ensures
            token@ == refund_status_token(*self),
    {
        match self {
            RefundStatus::Success => "SUCCESS",
            RefundStatus::Pending => "PENDING",
            RefundStatus::Rejected => "REJECTED",
            RefundStatus::Cancelled => "CANCELLED",
        }
    }

    /// Reads a status off the wire. A token that names none of the four
    /// statuses is refused: no status is made up for it.
    pub fn from_wire(token: &str) -> (status: Option<Self>)
        ensures
            status == refund_status_of(token@),
    {
        if same_text(token, "SUCCESS") {
            Some(RefundStatus::Success)
        } else if same_text(token, "PENDING") {
            Some(RefundStatus::Pending)
        } else if same_text(token, "REJECTED") {
            Some(RefundStatus::Rejected)
        } else if same_text(token, "CANCELLED") {
            Some(RefundStatus::Cancelled)
        } else {
            None
        }
    }
}

/// The refund status that the status field of a payload gives: the default
/// where the payload has no such field, else what its token stands for.
pub open spec fn refund_status_field(field: Option<Seq<char>>) -> Option<RefundStatus> {
    match field {
        None => Some(RefundStatus::Pending),
        Some(token) => refund_status_of(token),
    }
}

impl RefundStatus {
    /// Reads the status field of a payload. A payload without the field is
    /// pending; one whose field holds an unknown token has no status.
    pub fn from_wire_field(field: Option<&str>) -> (status: Option<Self>)
        ensures
            status == refund_status_field(view_of(field)),
    {
        match field {
            None => Some(RefundStatus::default()),
            Some(token) => RefundStatus::from_wire(token),
        }
    }
}

/// Every refund status is read back from its own token, and a token that is
/// read as a status is the token of that status.
pub proof fn refund_status_tokens_are_distinct(status: RefundStatus, token: Seq<char>)
    ensures
        refund_status_of(refund_status_token(status)) == Some(status),
        refund_status_of(token) == Some(status) ==> token == refund_status_token(status),
{
    reveal_strlit("SUCCESS");
    reveal_strlit("PENDING");
    reveal_strlit("REJECTED");
    reveal_strlit("CANCELLED");
    assert("SUCCESS"@.len() == 7);
    assert("PENDING"@.len() == 7);
    assert("REJECTED"@.len() == 8);
    assert("CANCELLED"@.len() == 9);
    assert("SUCCESS"@[0] != "PENDING"@[0]);
}

/// The refund status that the switch records for a refund status of the
/// processor.
pub open spec fn refund_status(status: RefundStatus) -> enums::RefundStatus {
    match status {
        RefundStatus::Success => enums::RefundStatus::Success,
        RefundStatus::Pending => enums::RefundStatus::Pending,
        RefundStatus::Rejected => enums::RefundStatus::ManualReview,
        RefundStatus::Cancelled => enums::RefundStatus::Failure,
    }
}

impl From<RefundStatus> for enums::RefundStatus {
    fn from(item: RefundStatus) -> (status: Self)
        ensures
            status == refund_status(item),
    {
        match item {
            RefundStatus::Success => Self::Success,
            RefundStatus::Pending => Self::Pending,
            RefundStatus::Rejected => Self::ManualReview,
            RefundStatus::Cancelled => Self::Failure,
        }
    }
}

impl FromSpecImpl<RefundStatus> for enums::RefundStatus {
    open spec fn obeys_from_spec() -> bool {
        true
    }

    open spec fn from_spec(item: RefundStatus) -> enums::RefundStatus {
        refund_status(item)
    }
}

} // verus!
