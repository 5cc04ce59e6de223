//! The images of a task, each one an option a worker may pick.

use vstd::prelude::*;

verus! {

/// A row of the task options table.
#[derive(Clone, Debug, PartialEq, Eq)]
pub struct TaskOption {
    pub id: u128,
    pub task_id: u128,
    pub image_url: String,
    pub no_of_times_image_selected: i16,
}

/// A task option to insert.
#[derive(Clone, Debug, PartialEq, Eq)]
pub struct NewTaskOption {
    pub task_id: u128,
    pub image_url: String,
    pub no_of_times_image_selected: i16,
}

} // verus!
