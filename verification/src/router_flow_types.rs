//! Markers for the operations of a payment's life. A record of the switch
//! carries one in its type, so that the record of one operation cannot stand
//! in for that of another.

use vstd::prelude::*;

verus! {

/// Authorizing a payment.
#[derive(Clone, Copy, Debug, PartialEq, Eq)]
pub struct Authorize;

/// Asking for the state of a payment.
#[derive(Clone, Copy, Debug, PartialEq, Eq)]
pub struct PSync;

/// Capturing the funds of an authorized payment.
#[derive(Clone, Copy, Debug, PartialEq, Eq)]
pub struct Capture;

/// Cancelling an authorized payment.
#[derive(Clone, Copy, Debug, PartialEq, Eq)]
pub struct Void;

/// Refunding a payment.
#[derive(Clone, Copy, Debug, PartialEq, Eq)]
pub struct Execute;

/// Asking for the state of a refund.
#[derive(Clone, Copy, Debug, PartialEq, Eq)]
pub struct RSync;

} // verus!
