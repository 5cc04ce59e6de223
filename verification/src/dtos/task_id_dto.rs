//! A task id as sent to clients.

use vstd::prelude::*;

verus! {

pub struct TaskIdDTO {
    pub task_id: String,
}

impl TaskIdDTO {
    /// Wraps the id, unchanged.
    pub fn from(task_id: String) -> (res: TaskIdDTO)
        ensures
            res.task_id == task_id,
    {
        TaskIdDTO { task_id }
    }
}

} // verus!
