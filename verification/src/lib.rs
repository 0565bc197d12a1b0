//! The dLocal connector of a payment switch: conversions between the
//! switch's connector-agnostic record of an operation and the wire schema of
//! the processor, in both directions, for authorizing, capturing and
//! cancelling a payment, refunding it, and asking for the state of a payment
//! or of a refund.
//!
//! Every conversion is a function of its arguments alone. Building a request
//! fails only in the ways its contract names; recording an answer changes the
//! status and the response of the record and nothing else.
//!
//! - [`authorize`], [`requests`]: the requests and how they are built.
//! - [`responses`]: the answers and how they are recorded.
//! - [`status`]: the processor's statuses, their tokens on the wire and their
//!   meaning to the switch.
//! - [`identification`]: the placeholder document of a payer by country.
//! - [`auth`]: the credential of a merchant at the processor.
//! - [`redirect`]: the form that sends a customer to a URL.
//! - [`text`]: trimming, decimal numerals and the like.
//! - the rest: the part of the switch's data model that the conversions read
//!   and write.

pub mod address;
pub mod auth;
pub mod authorize;
pub mod enums;
pub mod errors;
pub mod identification;
pub mod payment_method_data;
pub mod pii;
pub mod redirect;
pub mod requests;
pub mod responses;
pub mod router_data;
pub mod router_flow_types;
pub mod router_request_types;
pub mod router_response_types;
pub mod status;
pub mod text;
pub mod views;
