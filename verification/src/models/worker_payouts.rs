//! Payouts to workers.

use crate::time::UtcTime;
use vstd::prelude::*;

verus! {

/// The state of a payout transaction.
#[allow(non_camel_case_types)]
#[derive(Clone, Copy, Debug, PartialEq, Eq, Structural)]
pub enum WorkerPayoutStatus {
    PENDING,
    COMPLETED,
    FAILED,
}

/// A row of the payouts table.
#[derive(Clone, Debug, PartialEq, Eq)]
pub struct Payouts {
    pub id: u128,
    pub worker_wallet_address: String,
    pub amount: String,
    pub created_at: UtcTime,
    pub completed_at: Option<UtcTime>,
    pub txn_hash: String,
    pub payout_status: WorkerPayoutStatus,
}

/// A payout to insert.
#[derive(Clone, Debug, PartialEq, Eq)]
pub struct NewPayout {
    pub worker_wallet_address: String,
    pub amount: String,
    pub txn_hash: String,
    pub payout_status: WorkerPayoutStatus,
}

} // verus!
