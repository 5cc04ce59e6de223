//! Payments made by creators for their tasks.

use crate::time::UtcTime;
use vstd::prelude::*;

verus! {

/// The state of a creator's payment.
#[allow(non_camel_case_types)]
#[derive(Clone, Copy, Debug, PartialEq, Eq, Structural)]
pub enum CreatorsTxnStatus {
    CREATED,
    FAILED,
    COMPLETED,
}

/// A row of the creators' payments table.
#[derive(Clone, Debug, PartialEq, Eq)]
pub struct CreatorsPayment {
    pub id: u128,
    pub creator_wallet_address: String,
    pub txh_sign: Option<String>,
    pub payment_status: CreatorsTxnStatus,
    pub created_at: UtcTime,
}

/// A payment intent to insert.
#[derive(Clone, Debug, PartialEq, Eq)]
pub struct NewPaymentIntent {
    pub creator_wallet_address: String,
    pub payment_status: CreatorsTxnStatus,
}

} // verus!
