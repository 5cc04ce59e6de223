//! Workers: which task a worker gets next, what a submission changes, and a
//! worker's dashboard.

use crate::db::{DbFailure, DbFailureKind};
use crate::errors::{answer, PersErrors, PersErrorsView, CONFLICT, INTERNAL_SERVER_ERROR};
use crate::models::submission_details::NewSubmissionDetails;
use crate::models::task::{Task, TaskUpdates};
use crate::models::task_options::TaskOption;
use crate::models::worker_work_details::WorkerWorkDetails;
use vstd::prelude::*;

verus! {

/// How many submissions a task takes before it is complete.
pub const MAX_SUBMISSIONS_PER_TASK: i16 = 1000;

// ---------------------------------------------------------------------------
// The next task of a worker

/// A task may be shown to a worker who has not answered it yet while it has
/// fewer than 1000 submissions.
pub open spec fn open_for_worker(task: Task, already_submitted: bool) -> bool {
    !already_submitted && task.no_of_times_taks_done < MAX_SUBMISSIONS_PER_TASK
}

/// Decides `open_for_worker`.
pub fn is_open_for_worker(task: &Task, already_submitted: bool) -> (res: bool)
    ensures
        res == open_for_worker(*task, already_submitted),
        res <==> !already_submitted && task.no_of_times_taks_done < 1000,
{
    !already_submitted && task.no_of_times_taks_done < MAX_SUBMISSIONS_PER_TASK
}

/// The first of these tasks that is open to a worker who has answered none of
/// them, if any.
pub fn first_open_task(tasks: &Vec<Task>) -> (res: Option<usize>)
    ensures
        match res {
            Some(i) => i < tasks.len() && open_for_worker(tasks@[i as int], false) && forall|j: int|
                0 <= j < i ==> !open_for_worker(#[trigger] tasks@[j], false),
            None => forall|j: int| 0 <= j < tasks.len() ==> !open_for_worker(#[trigger] tasks@[j], false),
        },
{
    let mut i: usize = 0;
    while i < tasks.len()
        invariant
            i <= tasks.len(),
            forall|j: int| 0 <= j < i ==> !open_for_worker(#[trigger] tasks@[j], false),
        decreases tasks.len() - i,
    {
        if is_open_for_worker(&tasks[i], false) {
            return Some(i);
        }
        i = i + 1;
    }
    None
}

/// A worker is offered exactly the tasks it has not answered that have fewer
/// than 1000 submissions: every new task, every task still short of 1000
/// whatever its count, and none it already answered.
pub proof fn lemma_open_tasks(t: Task)
    ensures
        open_for_worker(t, false) <==> t.no_of_times_taks_done < 1000,
        !open_for_worker(t, true),
        is_fresh_task(t) ==> open_for_worker(t, false),
        task_lifecycle_ok(t) ==> (open_for_worker(t, false) <==> t.is_active == TaskUpdates::ACTIVE),
{
}

/// What `new_task_for_worker` answers when its query fails: 500 "No task found
/// for worker => <failure>" when no task is open, else 500 "Error while
/// finding unique task for worker => <failure>".
pub open spec fn next_task_failure(failure: DbFailure) -> PersErrorsView {
    if failure.kind == DbFailureKind::NotFound {
        answer(INTERNAL_SERVER_ERROR, "No task found for worker => "@ + failure.text@)
    } else {
        answer(INTERNAL_SERVER_ERROR, "Error while finding unique task for worker => "@ + failure.text@)
    }
}

/// The error `new_task_for_worker` answers when its query fails.
pub fn new_task_for_worker_error(failure: &DbFailure) -> (e: PersErrors)
    ensures
        e@ == next_task_failure(*failure),
{
    if failure.kind == DbFailureKind::NotFound {
        PersErrors::with_detail("No task found for worker => ", failure.text.as_str(), INTERNAL_SERVER_ERROR)
    } else {
        PersErrors::with_detail(
            "Error while finding unique task for worker => ",
            failure.text.as_str(),
            INTERNAL_SERVER_ERROR,
        )
    }
}

// ---------------------------------------------------------------------------
// A submission

/// A task takes a submission while it is active and has fewer than 1000.
pub open spec fn accepts_submission(task: Task) -> bool {
    task.is_active == TaskUpdates::ACTIVE && task.no_of_times_taks_done < MAX_SUBMISSIONS_PER_TASK
}

/// A task after one more submission: one more done, and complete when that
/// makes 1000.
pub open spec fn after_submission(task: Task) -> Task {
    Task {
        no_of_times_taks_done: (task.no_of_times_taks_done + 1) as i16,
        is_active: if task.no_of_times_taks_done + 1 == MAX_SUBMISSIONS_PER_TASK {
            TaskUpdates::COMPLETED
        } else {
            task.is_active
        },
        ..task
    }
}

/// The task row after a submission, or `None` when the task takes none (its
/// update then matches no row).
pub fn record_task_submission(task: Task) -> (res: Option<Task>)
    ensures
        accepts_submission(task) ==> res == Some(after_submission(task)),
        !accepts_submission(task) ==> res is None,
{
    if task.is_active == TaskUpdates::ACTIVE && task.no_of_times_taks_done < MAX_SUBMISSIONS_PER_TASK {
        let mut t = task;
        let done = t.no_of_times_taks_done + 1;
        t.no_of_times_taks_done = done;
        if done == MAX_SUBMISSIONS_PER_TASK {
            t.is_active = TaskUpdates::COMPLETED;
        }
        Some(t)
    } else {
        None
    }
}

/// A worker's details after one more answered task: both counters one higher.
pub open spec fn worker_after_submission(d: WorkerWorkDetails) -> WorkerWorkDetails {
    WorkerWorkDetails {
        total_lifetime_tasks: (d.total_lifetime_tasks + 1) as i32,
        current_no_of_tasks_for_payout: (d.current_no_of_tasks_for_payout + 1) as i32,
        ..d
    }
}

/// Both counters of the worker can still grow by one.
pub open spec fn worker_counters_can_grow(d: WorkerWorkDetails) -> bool {
    d.total_lifetime_tasks < i32::MAX && d.current_no_of_tasks_for_payout < i32::MAX
}

/// The worker's details after a submission, or `None` when a counter would
/// leave the range of its column.
pub fn record_worker_submission(details: WorkerWorkDetails) -> (res: Option<WorkerWorkDetails>)
    ensures
        worker_counters_can_grow(details) ==> res == Some(worker_after_submission(details)),
        !worker_counters_can_grow(details) ==> res is None,
        details.total_lifetime_tasks < i32::MAX && details.current_no_of_tasks_for_payout < i32::MAX
            ==> (res matches Some(d) && d.total_lifetime_tasks == details.total_lifetime_tasks + 1
            && d.current_no_of_tasks_for_payout == details.current_no_of_tasks_for_payout + 1
            && d.id == details.id && d.worker_wallet_address == details.worker_wallet_address
            && d.payout_status == details.payout_status && d.txn_hash_of_withdrawal
            == details.txn_hash_of_withdrawal),
{
    if details.total_lifetime_tasks < i32::MAX && details.current_no_of_tasks_for_payout < i32::MAX {
        let mut d = details;
        d.total_lifetime_tasks = d.total_lifetime_tasks + 1;
        d.current_no_of_tasks_for_payout = d.current_no_of_tasks_for_payout + 1;
        Some(d)
    } else {
        None
    }
}

/// An option after it was selected once more.
pub open spec fn option_after_selection(o: TaskOption) -> TaskOption {
    TaskOption { no_of_times_image_selected: (o.no_of_times_image_selected + 1) as i16, ..o }
}

/// The option after its selection, or `None` when its counter would leave the
/// range of its column.
pub fn record_option_selection(option: TaskOption) -> (res: Option<TaskOption>)
    ensures
        option.no_of_times_image_selected < i16::MAX ==> res == Some(option_after_selection(option)),
        option.no_of_times_image_selected == i16::MAX ==> res is None,
{
    if option.no_of_times_image_selected < i16::MAX {
        let mut o = option;
        o.no_of_times_image_selected = o.no_of_times_image_selected + 1;
        Some(o)
    } else {
        None
    }
}

/// The submission row that records the worker's choice.
pub fn new_submission(user_wallet_address: &str, task_id: u128, task_option_selected: u128) -> (s:
    NewSubmissionDetails)
    ensures
        s.worker_wallet_address@ == user_wallet_address@,
        s.task_id == task_id,
        s.selected_option_id == task_option_selected,
{
    NewSubmissionDetails {
        worker_wallet_address: user_wallet_address.to_owned(),
        task_id,
        selected_option_id: task_option_selected,
    }
}

/// What one submission writes, in the order of its transaction.
pub struct SubmissionEffects {
    pub task: Task,
    pub submission: NewSubmissionDetails,
    pub worker: WorkerWorkDetails,
    pub option: TaskOption,
}

/// The transaction of `worker_task_submission`, given the rows it touches as
/// they stand before it, read under lock: the task with this id, the worker's
/// details and the option with this id (each `None` when there is no such
/// row). The service writes what it returns, in this order. In its order:
/// a task that is missing or takes no submission fails with `NotFound`; the
/// submission refers to the option by foreign key, so a missing option fails
/// its insert (`Other`); missing worker details fail with `NotFound`; a
/// counter that would leave its column's range fails with `Other`.
pub fn worker_task_submission(
    task: Option<Task>,
    worker: Option<WorkerWorkDetails>,
    option: Option<TaskOption>,
    user_wallet_address: &str,
    task_id: u128,
    task_option_selected: u128,
) -> (res: Result<SubmissionEffects, DbFailureKind>)
    requires
        task matches Some(t) ==> t.id == task_id,
        option matches Some(o) ==> o.id == task_option_selected,
        worker matches Some(w) ==> w.worker_wallet_address@ == user_wallet_address@,
    ensures
        match task {
            None => res == Err::<SubmissionEffects, DbFailureKind>(DbFailureKind::NotFound),
            Some(t) => if !accepts_submission(t) {
                res == Err::<SubmissionEffects, DbFailureKind>(DbFailureKind::NotFound)
            } else if option is None {
                res == Err::<SubmissionEffects, DbFailureKind>(DbFailureKind::Other)
            } else if worker is None {
                res == Err::<SubmissionEffects, DbFailureKind>(DbFailureKind::NotFound)
            } else if !worker_counters_can_grow(worker->Some_0) || option->Some_0.no_of_times_image_selected
                == i16::MAX {
                res == Err::<SubmissionEffects, DbFailureKind>(DbFailureKind::Other)
            } else {
                res matches Ok(fx) && fx.task == after_submission(t) && fx.worker
                    == worker_after_submission(worker->Some_0) && fx.option == option_after_selection(
                    option->Some_0,
                ) && fx.submission.worker_wallet_address@ == user_wallet_address@
                    && fx.submission.task_id == task_id && fx.submission.selected_option_id
                    == task_option_selected
            },
        },
{
    let t = match task {
        None => {
            return Err(DbFailureKind::NotFound);
        },
        Some(t) => t,
    };
    let updated_task = match record_task_submission(t) {
        None => {
            return Err(DbFailureKind::NotFound);
        },
        Some(u) => u,
    };
    let o = match option {
        None => {
            return Err(DbFailureKind::Other);
        },
        Some(o) => o,
    };
    let submission = new_submission(user_wallet_address, task_id, task_option_selected);
    let w = match worker {
        None => {
            return Err(DbFailureKind::NotFound);
        },
        Some(w) => w,
    };
    let updated_worker = match record_worker_submission(w) {
        None => {
            return Err(DbFailureKind::Other);
        },
        Some(w2) => w2,
    };
    let updated_option = match record_option_selection(o) {
        None => {
            return Err(DbFailureKind::Other);
        },
        Some(o2) => o2,
    };
    Ok(
        SubmissionEffects {
            task: updated_task,
            submission,
            worker: updated_worker,
            option: updated_option,
        },
    )
}

/// The failure of a submission that the transaction refused for a reason
/// other than a missing row: the option it names does not exist, or a counter
/// is at the top of its column's range.
pub fn unrecordable_submission() -> (f: DbFailure)
    ensures
        f.kind == DbFailureKind::Other,
        f.text@ == "the submission cannot be recorded: its option does not exist or a counter is full"@,
{
    DbFailure {
        kind: DbFailureKind::Other,
        text: String::from_str(
            "the submission cannot be recorded: its option does not exist or a counter is full",
        ),
    }
}

/// What a failed submission answers: 409 with the failure's text when a row
/// was not found (the task is unknown, complete or full, or the worker has no
/// details), else 500 with the failure's text.
pub open spec fn submission_failure(failure: DbFailure) -> PersErrorsView {
    if failure.kind == DbFailureKind::NotFound {
        answer(CONFLICT, failure.text@)
    } else {
        answer(INTERNAL_SERVER_ERROR, failure.text@)
    }
}

/// The error `worker_task_submission` answers when its transaction fails.
pub fn worker_task_submission_error(failure: &DbFailure) -> (e: PersErrors)
    ensures
        e@ == submission_failure(*failure),
{
    if failure.kind == DbFailureKind::NotFound {
        PersErrors::from_text(failure.text.as_str(), CONFLICT)
    } else {
        PersErrors::from_text(failure.text.as_str(), INTERNAL_SERVER_ERROR)
    }
}

/// What `worker_dashboard_data` answers when its query fails: 500 "error
/// fetching worker dashboard details <wallet>: <failure>".
pub fn worker_dashboard_data_error(failure: &DbFailure, user_wallet_address: &str) -> (e: PersErrors)
    ensures
        e@ == answer(
            INTERNAL_SERVER_ERROR,
            "error fetching worker dashboard details "@ + user_wallet_address@ + ": "@ + failure.text@,
        ),
{
    let mut message = String::from_str("error fetching worker dashboard details ");
    message.append(user_wallet_address);
    message.append(": ");
    message.append(failure.text.as_str());
    PersErrors::new(message, INTERNAL_SERVER_ERROR)
}

// ---------------------------------------------------------------------------
// What every submission keeps

/// A task row as the service keeps it: between 0 and 1000 submissions, and
/// complete exactly when it has 1000.
pub open spec fn task_lifecycle_ok(t: Task) -> bool {
    &&& 0 <= t.no_of_times_taks_done <= MAX_SUBMISSIONS_PER_TASK
    &&& (t.is_active == TaskUpdates::COMPLETED <==> t.no_of_times_taks_done == MAX_SUBMISSIONS_PER_TASK)
}

/// A task as `create_new_task` makes it: active, with no submissions.
pub open spec fn is_fresh_task(t: Task) -> bool {
    t.is_active == TaskUpdates::ACTIVE && t.no_of_times_taks_done == 0
}

/// A new task keeps the lifecycle, and a submission keeps it too: the count
/// goes up by one and the task completes exactly when the count reaches 1000.
/// A task that keeps the lifecycle takes submissions exactly while it is active.
pub proof fn lemma_submission_keeps_task_lifecycle(t: Task)
    ensures
        is_fresh_task(t) ==> task_lifecycle_ok(t),
        task_lifecycle_ok(t) ==> (accepts_submission(t) <==> t.is_active == TaskUpdates::ACTIVE),
        task_lifecycle_ok(t) && accepts_submission(t) ==> {
            &&& task_lifecycle_ok(after_submission(t))
            &&& after_submission(t).no_of_times_taks_done == t.no_of_times_taks_done + 1
        },
{
}

/// A complete task takes no submission, and the refused update is answered 409.
pub proof fn lemma_complete_task_refuses_submission(t: Task, failure: DbFailure)
    requires
        t.is_active == TaskUpdates::COMPLETED,
        failure.kind == DbFailureKind::NotFound,
    ensures
        !accepts_submission(t),
        submission_failure(failure).status == CONFLICT,
{
}

/// The task after `n` submissions are tried on it in turn; one that it does
/// not accept leaves it as it is.
pub open spec fn after_submissions(t: Task, n: nat) -> Task
    decreases n,
{
    if n == 0 {
        t
    } else {
        let prev = after_submissions(t, (n - 1) as nat);
        if accepts_submission(prev) {
            after_submission(prev)
        } else {
            prev
        }
    }
}

/// A new task counts every submission up to 1000, completes at the 1000th,
/// and takes no more after that.
pub proof fn lemma_task_completes_at_limit(t: Task, n: nat)
    requires
        is_fresh_task(t),
    ensures
        task_lifecycle_ok(after_submissions(t, n)),
        after_submissions(t, n).no_of_times_taks_done == if n < 1000 {
            n as int
        } else {
            1000
        },
        after_submissions(t, n).is_active == TaskUpdates::COMPLETED <==> n >= 1000,
        n >= 1000 ==> !accepts_submission(after_submissions(t, n)),
    decreases n,
{
    if n > 0 {
        lemma_task_completes_at_limit(t, (n - 1) as nat);
    }
}

/// How many of `n` submissions tried in turn on `t` it accepts.
pub open spec fn accepted_submissions(t: Task, n: nat) -> nat
    decreases n,
{
    if n == 0 {
        0
    } else {
        let prev = after_submissions(t, (n - 1) as nat);
        accepted_submissions(t, (n - 1) as nat) + if accepts_submission(prev) {
            1nat
        } else {
            0nat
        }
    }
}

/// From any task that keeps the lifecycle, with `c` submissions, `n` more
/// submissions tried in turn are accepted `min(n, 1000 - c)` times: the count
/// ends at `min(c + n, 1000)`, never above 1000 and with none lost, and the
/// task is complete exactly when that is 1000. Submissions to one task run one
/// at a time, since each holds the task's row locked while it decides, so
/// this is also what concurrent submissions come to.
pub proof fn lemma_submissions_reach_limit(t: Task, n: nat)
    requires
        task_lifecycle_ok(t),
    ensures
        task_lifecycle_ok(after_submissions(t, n)),
        accepted_submissions(t, n) == if n <= MAX_SUBMISSIONS_PER_TASK - t.no_of_times_taks_done {
            n as int
        } else {
            MAX_SUBMISSIONS_PER_TASK - t.no_of_times_taks_done
        },
        after_submissions(t, n).no_of_times_taks_done == t.no_of_times_taks_done + accepted_submissions(
            t,
            n,
        ),
        after_submissions(t, n).is_active == TaskUpdates::COMPLETED <==> t.no_of_times_taks_done + n
            >= MAX_SUBMISSIONS_PER_TASK,
        after_submissions(t, n).id == t.id,
    decreases n,
{
    if n > 0 {
        lemma_submissions_reach_limit(t, (n - 1) as nat);
        lemma_submission_keeps_task_lifecycle(after_submissions(t, (n - 1) as nat));
    }
}

/// The worker counters as the service keeps them: what awaits payout is part
/// of what the worker did in its lifetime.
pub open spec fn worker_counters_ok(d: WorkerWorkDetails) -> bool {
    0 <= d.current_no_of_tasks_for_payout <= d.total_lifetime_tasks
}

/// A worker starts with both counters at zero, which keeps them in order.
pub proof fn lemma_new_worker_counters_ok(d: WorkerWorkDetails)
    requires
        d.total_lifetime_tasks == 0,
        d.current_no_of_tasks_for_payout == 0,
    ensures
        worker_counters_ok(d),
{
}

/// Any worker whose counters are in order and below the top of their range can
/// record a submission, a new worker (both counters 0) included: its counters
/// each go up by exactly one and stay in order.
pub proof fn lemma_worker_in_order_can_record(d: WorkerWorkDetails)
    requires
        0 <= d.current_no_of_tasks_for_payout <= d.total_lifetime_tasks < i32::MAX,
    ensures
        worker_counters_can_grow(d),
        worker_after_submission(d).total_lifetime_tasks == d.total_lifetime_tasks + 1,
        worker_after_submission(d).current_no_of_tasks_for_payout == d.current_no_of_tasks_for_payout
            + 1,
        worker_counters_ok(worker_after_submission(d)),
{
}

/// A whole submission by a worker whose counters are in order goes through on
/// an open task and an existing, not yet full option: it counts one more on
/// the task, both of the worker's counters and the option.
pub proof fn lemma_submission_goes_through(t: Task, d: WorkerWorkDetails, o: TaskOption)
    requires
        t.is_active == TaskUpdates::ACTIVE,
        0 <= t.no_of_times_taks_done < 1000,
        0 <= d.current_no_of_tasks_for_payout <= d.total_lifetime_tasks < i32::MAX,
        0 <= o.no_of_times_image_selected < i16::MAX,
    ensures
        accepts_submission(t),
        worker_counters_can_grow(d),
        after_submission(t).no_of_times_taks_done == t.no_of_times_taks_done + 1,
        worker_after_submission(d).total_lifetime_tasks == d.total_lifetime_tasks + 1,
        worker_after_submission(d).current_no_of_tasks_for_payout == d.current_no_of_tasks_for_payout
            + 1,
        option_after_selection(o).no_of_times_image_selected == o.no_of_times_image_selected + 1,
{
}

/// A submission adds one task to both counters, and so keeps them in order.
pub proof fn lemma_submission_keeps_worker_counters(d: WorkerWorkDetails)
    requires
        worker_counters_ok(d),
        worker_counters_can_grow(d),
    ensures
        worker_counters_ok(worker_after_submission(d)),
        worker_after_submission(d).total_lifetime_tasks == d.total_lifetime_tasks + 1,
        worker_after_submission(d).current_no_of_tasks_for_payout == d.current_no_of_tasks_for_payout
            + 1,
{
}

} // verus!
