//! A task as shown to a worker: its id and its options.

use crate::models::task_options::TaskOption;
use vstd::prelude::*;

verus! {

pub struct TaskDetailsWithOptionsDTO {
    pub task_id: String,
    pub task_options: Vec<TaskOption>,
}

impl TaskDetailsWithOptionsDTO {
    /// Pairs the task id with its options, unchanged.
    pub fn from(task_complete_data: (String, Vec<TaskOption>)) -> (res: TaskDetailsWithOptionsDTO)
        ensures
            res.task_id == task_complete_data.0,
            res.task_options == task_complete_data.1,
    {
        TaskDetailsWithOptionsDTO { task_id: task_complete_data.0, task_options: task_complete_data.1 }
    }
}

} // verus!
