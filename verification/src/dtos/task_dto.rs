//! A task as shown to its creator.

use crate::models::task::{Task, TaskUpdates};
use crate::time::UtcTime;
use vstd::prelude::*;

verus! {

#[derive(Clone, Copy, Debug, PartialEq, Eq, Structural)]
pub struct TaskDTO {
    pub id: u128,
    pub is_active: TaskUpdates,
    pub no_of_times_task_done: i16,
    pub created_at: UtcTime,
}

/// The view of a task that its creator gets: id, state, submissions, creation time.
pub open spec fn task_summary(t: Task) -> TaskDTO {
    TaskDTO {
        id: t.id,
        is_active: t.is_active,
        no_of_times_task_done: t.no_of_times_taks_done,
        created_at: t.created_at,
    }
}

impl TaskDTO {
    /// Summarises each task, in order.
    pub fn to_tasks(vec_of_taks: Vec<Task>) -> (ans: Vec<TaskDTO>)
        ensures
            ans@.len() == vec_of_taks@.len(),
            forall|i: int| 0 <= i < ans@.len() ==> ans@[i] == task_summary(#[trigger] vec_of_taks@[i]),
    {
        let mut ans: Vec<TaskDTO> = Vec::new();
        let mut i: usize = 0;
        while i < vec_of_taks.len()
            invariant
                i <= vec_of_taks@.len(),
                ans@.len() == i,
                forall|j: int| 0 <= j < i ==> ans@[j] == task_summary(#[trigger] vec_of_taks@[j]),
            decreases vec_of_taks@.len() - i,
        {
            let t = &vec_of_taks[i];
            ans.push(
                TaskDTO {
                    id: t.id,
                    is_active: t.is_active,
                    no_of_times_task_done: t.no_of_times_taks_done,
                    created_at: t.created_at,
                },
            );
            i = i + 1;
        }
        ans
    }

    /// The summary of one task.
    pub fn to_task(task_struct: Task) -> (res: TaskDTO)
        ensures
            res == task_summary(task_struct),
    {
        TaskDTO {
            id: task_struct.id,
            is_active: task_struct.is_active,
            no_of_times_task_done: task_struct.no_of_times_taks_done,
            created_at: task_struct.created_at,
        }
    }
}

} // verus!
