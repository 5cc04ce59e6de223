//! Tasks: a set of images that a creator paid to have workers choose among.

use crate::time::UtcTime;
use vstd::prelude::*;

verus! {

/// Whether a task still takes submissions.
#[allow(non_camel_case_types)]
#[derive(Clone, Copy, Debug, PartialEq, Eq, Structural)]
pub enum TaskUpdates {
    ACTIVE,
    COMPLETED,
}

/// A row of the tasks table.
#[derive(Clone, Debug, PartialEq, Eq)]
pub struct Task {
    pub id: u128,
    pub user_wallet_address: String,
    pub txn_hash: String,
    pub is_active: TaskUpdates,
    pub no_of_times_taks_done: i16,
    pub created_at: UtcTime,
}

/// A task to insert.
#[derive(Clone, Debug, PartialEq, Eq)]
pub struct NewTask {
    pub user_wallet_address: String,
    pub txn_hash: String,
    pub is_active: TaskUpdates,
    pub no_of_times_taks_done: i16,
}

} // verus!
