//! A worker's answer to a task.

use vstd::prelude::*;

verus! {

/// The task and the option the worker picked.
#[derive(Clone, Copy, Debug, PartialEq, Eq, Structural)]
pub struct TaskSubmissionDataDTO {
    pub task_id: u128,
    pub selection_option_id: u128,
}

} // verus!
