//! Creating tasks: the task row and one option row per image.

use crate::dtos::new_task_dto::NewTaskDTO;
use crate::models::task::{NewTask, TaskUpdates};
use crate::models::task_options::NewTaskOption;
use vstd::prelude::*;

verus! {

/// The task row that `create_new_task` inserts for a creator: its wallet, the
/// signature of its payment, active, with no submissions yet.
pub fn new_task_record(user_wallet_address: String, new_task_details: &NewTaskDTO) -> (t: NewTask)
    ensures
        t.user_wallet_address == user_wallet_address,
        t.txn_hash@ == new_task_details.txn_sign@,
        t.is_active == TaskUpdates::ACTIVE,
        t.no_of_times_taks_done == 0,
{
    NewTask {
        user_wallet_address,
        txn_hash: new_task_details.txn_sign.clone(),
        is_active: TaskUpdates::ACTIVE,
        no_of_times_taks_done: 0,
    }
}

/// One option of task `task_id` showing this image, not yet selected.
pub open spec fn is_fresh_option(o: NewTaskOption, task_id: u128, image_url: Seq<char>) -> bool {
    &&& o.task_id == task_id
    &&& o.image_url@ == image_url
    &&& o.no_of_times_image_selected == 0
}

/// The option rows that `create_new_task` inserts: one per image, in order.
pub fn new_task_options(task_id: u128, images: &Vec<String>) -> (options: Vec<NewTaskOption>)
    ensures
        options@.len() == images@.len(),
        forall|i: int|
            0 <= i < options@.len() ==> is_fresh_option(#[trigger] options@[i], task_id, images@[i]@),
        forall|i: int|
            0 <= i < options@.len() ==> {
                &&& (#[trigger] options@[i]).task_id == task_id
                &&& options@[i].image_url@ == images@[i]@
                &&& options@[i].no_of_times_image_selected == 0
            },
{
    let mut options: Vec<NewTaskOption> = Vec::new();
    let mut i: usize = 0;
    while i < images.len()
        invariant
            i <= images@.len(),
            options@.len() == i,
            forall|j: int|
                0 <= j < i ==> is_fresh_option(#[trigger] options@[j], task_id, images@[j]@),
        decreases images@.len() - i,
    {
        let image_url = images[i].clone();
        options.push(NewTaskOption { task_id, image_url, no_of_times_image_selected: 0 });
        i = i + 1;
    }
    proof {
        assert forall|i: int| 0 <= i < options@.len() implies (#[trigger] options@[i]).task_id
            == task_id by {
            lemma_fresh_option_belongs_to_its_task(options@[i], task_id, images@[i]@);
        }
    }
    options
}

/// An option made for a task belongs to exactly that task, shows exactly the
/// image it was made for and starts unselected, whatever the task's id (all
/// 128 bits of it) and the image.
pub proof fn lemma_fresh_option_belongs_to_its_task(o: NewTaskOption, task_id: u128, image_url: Seq<char>)
    requires
        is_fresh_option(o, task_id, image_url),
    ensures
        o.task_id == task_id,
        o.image_url@ == image_url,
        o.no_of_times_image_selected == 0,
{
}

/// Two options made for different tasks never name the same task, and options
/// made for one task all name it.
pub proof fn lemma_options_of_distinct_tasks_differ(
    a: NewTaskOption,
    b: NewTaskOption,
    task_a: u128,
    task_b: u128,
    image_a: Seq<char>,
    image_b: Seq<char>,
)
    requires
        is_fresh_option(a, task_a, image_a),
        is_fresh_option(b, task_b, image_b),
    ensures
        task_a != task_b ==> a.task_id != b.task_id,
        task_a == task_b ==> a.task_id == b.task_id,
{
}

} // verus!
