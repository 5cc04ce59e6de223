//! What a worker has done and may be paid for.

use vstd::prelude::*;

verus! {

/// Whether a worker may withdraw what it earned.
#[allow(non_camel_case_types)]
#[derive(Clone, Copy, Debug, PartialEq, Eq, Structural)]
pub enum PaymentStatus {
    LOCKED,
    NOT_ELIGIBLE,
    CAN_WITHDRAW,
}

/// A row of the worker work details table.
#[derive(Clone, Debug, PartialEq, Eq)]
pub struct WorkerWorkDetails {
    pub id: u128,
    pub worker_wallet_address: String,
    pub total_lifetime_tasks: i32,
    pub current_no_of_tasks_for_payout: i32,
    pub payout_status: PaymentStatus,
    pub txn_hash_of_withdrawal: Option<String>,
}

/// Worker work details to insert.
#[derive(Clone, Debug, PartialEq, Eq)]
pub struct NewOrUpdateWorkerWorkDetails {
    pub worker_wallet_address: String,
    pub total_lifetime_tasks: i32,
    pub current_no_of_tasks_for_payout: i32,
    pub payout_status: PaymentStatus,
    pub txn_hash_of_withdrawal: Option<String>,
}

} // verus!
