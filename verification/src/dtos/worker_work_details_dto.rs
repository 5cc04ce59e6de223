//! A worker's dashboard.

use crate::models::worker_work_details::{PaymentStatus, WorkerWorkDetails};
use vstd::prelude::*;

verus! {

#[derive(Clone, Copy, Debug, PartialEq, Eq, Structural)]
pub struct WorkerWorkDetailsDTO {
    pub total_lifetime_tasks: i32,
    pub current_no_of_tasks_for_payout: i32,
    pub payout_status: PaymentStatus,
}

impl WorkerWorkDetailsDTO {
    /// The counters and the payout state of the worker's details.
    pub fn from(work_details: WorkerWorkDetails) -> (res: Self)
        ensures
            res.total_lifetime_tasks == work_details.total_lifetime_tasks,
            res.current_no_of_tasks_for_payout == work_details.current_no_of_tasks_for_payout,
            res.payout_status == work_details.payout_status,
    {
        WorkerWorkDetailsDTO {
            total_lifetime_tasks: work_details.total_lifetime_tasks,
            current_no_of_tasks_for_payout: work_details.current_no_of_tasks_for_payout,
            payout_status: work_details.payout_status,
        }
    }
}

} // verus!
