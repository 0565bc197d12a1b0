//! The means by which a customer pays.

use vstd::prelude::*;
use crate::pii::{CardNumber, Secret};

verus! {

/// The details of a payment card.
#[derive(PartialEq, Eq)]
pub struct Card {
    pub card_number: CardNumber,
    pub card_exp_month: Secret,
    pub card_exp_year: Secret,
    pub card_cvc: Secret,
}

/// Every payment method that the switch knows. Only a card carries details
/// here: no conversion of this connector reads those of the others.
#[derive(PartialEq, Eq)]
pub enum PaymentMethodData {
    Card(Card),
    CardRedirect,
    Wallet,
    PayLater,
    BankRedirect,
    BankDebit,
    BankTransfer,
    Crypto,
    MandatePayment,
    Reward,
    RealTimePayment,
    MobilePayment,
    Upi,
    Voucher,
    GiftCard,
    OpenBanking,
    CardToken,
    NetworkToken,
    CardDetailsForNetworkTransactionId,
}

} // verus!
