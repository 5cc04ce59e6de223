//! Submissions: which option a worker picked for a task.

use vstd::prelude::*;

verus! {

/// A row of the submission details table.
#[derive(Clone, Debug, PartialEq, Eq)]
pub struct Task {
    pub id: u128,
    pub worker_wallet_address: String,
    pub task_id: u128,
    pub selected_option_id: u128,
}

/// A submission to insert.
#[derive(Clone, Debug, PartialEq, Eq)]
pub struct NewSubmissionDetails {
    pub worker_wallet_address: String,
    pub task_id: u128,
    pub selected_option_id: u128,
}

} // verus!
