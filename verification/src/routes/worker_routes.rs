//! Payouts of workers.

use crate::errors::PersErrors;
use vstd::prelude::*;

verus! {

/// What a worker earns per task done, in cents: $0.05.
pub const PAYOUT_CENTS_PER_TASK: i64 = 5;

/// What a worker's earnings must exceed before a payout, in cents: $10.
pub const PAYOUT_MINIMUM_CENTS: i64 = 1000;

/// A worker may be paid out once its tasks not yet paid for are worth more
/// than $10 at $0.05 each.
pub open spec fn payout_eligible(current_no_of_tasks_for_payout: int) -> bool {
    current_no_of_tasks_for_payout * PAYOUT_CENTS_PER_TASK > PAYOUT_MINIMUM_CENTS
}

/// Whether a worker with this many tasks not yet paid for may ask for a payout.
pub fn is_eligible_for_payout(current_no_of_tasks_for_payout: i32) -> (eligible: bool)
    ensures
        eligible == payout_eligible(current_no_of_tasks_for_payout as int),
{
    let tasks: i64 = current_no_of_tasks_for_payout as i64;
    tasks * PAYOUT_CENTS_PER_TASK > PAYOUT_MINIMUM_CENTS
}

/// A worker's request for its payout. Payouts are not made yet: the request
/// always succeeds and changes nothing.
pub fn worker_payout() -> (res: Result<(), PersErrors>)
    ensures
        res is Ok,
{
    Ok(())
}

} // verus!
