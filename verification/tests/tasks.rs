use ctr_checker::db::{query_failed, DbFailure, DbFailureKind};
use ctr_checker::dtos::naunce_auth_dto::NaunceAuthStruct;
use ctr_checker::dtos::new_task_dto::NewTaskDTO;
use ctr_checker::dtos::task_details_with_options_dto::TaskDetailsWithOptionsDTO;
use ctr_checker::dtos::task_dto::TaskDTO;
use ctr_checker::dtos::task_id_dto::TaskIdDTO;
use ctr_checker::dtos::worker_work_details_dto::WorkerWorkDetailsDTO;
use ctr_checker::models::task::{Task, TaskUpdates};
use ctr_checker::models::task_options::TaskOption;
use ctr_checker::models::worker_work_details::{PaymentStatus, WorkerWorkDetails};
use ctr_checker::services::tasks::{new_task_options, new_task_record};
use ctr_checker::services::worker::{
    first_open_task, is_open_for_worker, new_task_for_worker_error, unrecordable_submission, record_option_selection,
    record_task_submission, record_worker_submission, worker_dashboard_data_error,
    worker_task_submission, worker_task_submission_error, MAX_SUBMISSIONS_PER_TASK,
};
use ctr_checker::structs::NaunceAuth;
use ctr_checker::time::UtcTime;

fn task(done: i16, state: TaskUpdates) -> Task {
    Task {
        id: 11,
        user_wallet_address: "creator".to_string(),
        txn_hash: "hash".to_string(),
        is_active: state,
        no_of_times_taks_done: done,
        created_at: UtcTime { secs: 1000, nanos: 1 },
    }
}

fn worker(lifetime: i32, current: i32) -> WorkerWorkDetails {
    WorkerWorkDetails {
        id: 5,
        worker_wallet_address: "worker".to_string(),
        total_lifetime_tasks: lifetime,
        current_no_of_tasks_for_payout: current,
        payout_status: PaymentStatus::NOT_ELIGIBLE,
        txn_hash_of_withdrawal: None,
    }
}

fn option(selected: i16) -> TaskOption {
    TaskOption { id: 21, task_id: 11, image_url: "img".to_string(), no_of_times_image_selected: selected }
}

#[test]
fn new_task_is_active_and_unanswered() {
    let dto = NewTaskDTO { images: vec!["a".to_string()], txn_sign: "sig".to_string(), payment_id: 1 };
    let t = new_task_record("creator".to_string(), &dto);
    assert_eq!(t.user_wallet_address, "creator");
    assert_eq!(t.txn_hash, "sig");
    assert_eq!(t.is_active, TaskUpdates::ACTIVE);
    assert_eq!(t.no_of_times_taks_done, 0);
}

#[test]
fn one_fresh_option_per_image_in_order() {
    let images = vec!["a.png".to_string(), "b.png".to_string(), "c.png".to_string()];
    let opts = new_task_options(42, &images);
    assert_eq!(opts.len(), 3);
    for (o, img) in opts.iter().zip(images.iter()) {
        assert_eq!(o.task_id, 42);
        assert_eq!(&o.image_url, img);
        assert_eq!(o.no_of_times_image_selected, 0);
    }
    assert!(new_task_options(1, &vec![]).is_empty());
}

#[test]
fn submissions_count_up_and_complete_at_the_limit() {
    assert_eq!(MAX_SUBMISSIONS_PER_TASK, 1000);
    let t = record_task_submission(task(998, TaskUpdates::ACTIVE)).unwrap();
    assert_eq!((t.no_of_times_taks_done, t.is_active), (999, TaskUpdates::ACTIVE));
    let t = record_task_submission(t).unwrap();
    assert_eq!((t.no_of_times_taks_done, t.is_active), (1000, TaskUpdates::COMPLETED));
    assert_eq!(record_task_submission(t), None);
}

#[test]
fn fresh_task_completes_after_exactly_1000_submissions() {
    let mut t = task(0, TaskUpdates::ACTIVE);
    for n in 1..=1000 {
        t = record_task_submission(t).unwrap();
        assert_eq!(t.no_of_times_taks_done, n);
        assert_eq!(t.is_active == TaskUpdates::COMPLETED, n == 1000);
    }
    assert_eq!(record_task_submission(t), None);
}

#[test]
fn completed_or_full_tasks_take_no_submission() {
    assert_eq!(record_task_submission(task(10, TaskUpdates::COMPLETED)), None);
    assert_eq!(record_task_submission(task(1000, TaskUpdates::ACTIVE)), None);
    assert_eq!(record_task_submission(task(i16::MAX, TaskUpdates::ACTIVE)), None);
}

#[test]
fn submission_keeps_the_rest_of_the_task() {
    let t = record_task_submission(task(-3, TaskUpdates::ACTIVE)).unwrap();
    assert_eq!(t.no_of_times_taks_done, -2);
    assert_eq!(t.id, 11);
    assert_eq!(t.txn_hash, "hash");
}

#[test]
fn worker_counters_grow_together() {
    let w = record_worker_submission(worker(7, 2)).unwrap();
    assert_eq!((w.total_lifetime_tasks, w.current_no_of_tasks_for_payout), (8, 3));
    assert!(w.current_no_of_tasks_for_payout <= w.total_lifetime_tasks);
    assert_eq!(record_worker_submission(worker(i32::MAX, 0)), None);
    assert_eq!(record_worker_submission(worker(0, i32::MAX)), None);
}

#[test]
fn option_selection_counts_one_more() {
    assert_eq!(record_option_selection(option(4)).unwrap().no_of_times_image_selected, 5);
    assert_eq!(record_option_selection(option(i16::MAX)), None);
}

#[test]
fn whole_submission_updates_every_row() {
    let fx = worker_task_submission(
        Some(task(999, TaskUpdates::ACTIVE)),
        Some(worker(1, 1)),
        Some(option(0)),
        "worker",
        11,
        21,
    )
    .ok()
    .unwrap();
    assert_eq!(fx.task.is_active, TaskUpdates::COMPLETED);
    assert_eq!(fx.task.no_of_times_taks_done, 1000);
    assert_eq!(fx.worker.total_lifetime_tasks, 2);
    assert_eq!(fx.option.no_of_times_image_selected, 1);
    assert_eq!(fx.submission.worker_wallet_address, "worker");
    assert_eq!((fx.submission.task_id, fx.submission.selected_option_id), (11, 21));
}

#[test]
fn submission_failures_in_transaction_order() {
    let ok_task = || Some(task(1, TaskUpdates::ACTIVE));
    let kind = |r: Result<_, DbFailureKind>| r.err().unwrap();
    assert_eq!(kind(worker_task_submission(None, Some(worker(0, 0)), Some(option(0)), "worker", 11, 21)), DbFailureKind::NotFound);
    assert_eq!(
        kind(worker_task_submission(Some(task(1, TaskUpdates::COMPLETED)), Some(worker(0, 0)), Some(option(0)), "worker", 11, 21)),
        DbFailureKind::NotFound
    );
    assert_eq!(kind(worker_task_submission(ok_task(), None, None, "worker", 11, 21)), DbFailureKind::Other);
    assert_eq!(kind(worker_task_submission(ok_task(), None, Some(option(0)), "worker", 11, 21)), DbFailureKind::NotFound);
    assert_eq!(
        kind(worker_task_submission(ok_task(), Some(worker(i32::MAX, 0)), Some(option(0)), "worker", 11, 21)),
        DbFailureKind::Other
    );
    assert_eq!(
        kind(worker_task_submission(ok_task(), Some(worker(0, 0)), Some(option(i16::MAX)), "worker", 11, 21)),
        DbFailureKind::Other
    );
}

#[test]
fn refused_submission_is_a_conflict() {
    let e = worker_task_submission_error(&DbFailure { kind: DbFailureKind::NotFound, text: "Record not found".to_string() });
    assert_eq!((e.status, e.message.as_str()), (409, "Record not found"));
    let e = worker_task_submission_error(&DbFailure { kind: DbFailureKind::Other, text: "x".to_string() });
    assert_eq!((e.status, e.message.as_str()), (500, "x"));
}

#[test]
fn open_tasks_for_a_worker() {
    assert!(is_open_for_worker(&task(999, TaskUpdates::ACTIVE), false));
    assert!(!is_open_for_worker(&task(999, TaskUpdates::ACTIVE), true));
    assert!(!is_open_for_worker(&task(1000, TaskUpdates::COMPLETED), false));
    assert!(is_open_for_worker(&task(5, TaskUpdates::COMPLETED), false));
}

#[test]
fn worker_query_errors() {
    let nf = DbFailure { kind: DbFailureKind::NotFound, text: "Record not found".to_string() };
    let e = new_task_for_worker_error(&nf);
    assert_eq!((e.status, e.message.as_str()), (500, "No task found for worker => Record not found"));
    let other = DbFailure { kind: DbFailureKind::Other, text: "down".to_string() };
    let e = new_task_for_worker_error(&other);
    assert_eq!(e.message, "Error while finding unique task for worker => down");
    let e = worker_dashboard_data_error(&other, "w7");
    assert_eq!((e.status, e.message.as_str()), (500, "error fetching worker dashboard details w7: down"));
    let e = query_failed(&other);
    assert_eq!((e.status, e.message.as_str()), (500, "down"));
}

#[test]
fn task_summaries_keep_order_and_fields() {
    let tasks = vec![task(1, TaskUpdates::ACTIVE), task(1000, TaskUpdates::COMPLETED)];
    let dtos = TaskDTO::to_tasks(tasks);
    assert_eq!(dtos.len(), 2);
    assert_eq!(dtos[0], TaskDTO { id: 11, is_active: TaskUpdates::ACTIVE, no_of_times_task_done: 1, created_at: UtcTime { secs: 1000, nanos: 1 } });
    assert_eq!(dtos[1].no_of_times_task_done, 1000);
    assert_eq!(dtos[1].is_active, TaskUpdates::COMPLETED);
    assert_eq!(TaskDTO::to_task(task(7, TaskUpdates::ACTIVE)).no_of_times_task_done, 7);
    assert!(TaskDTO::to_tasks(vec![]).is_empty());
}

#[test]
fn dto_conversions_keep_their_fields() {
    assert_eq!(TaskIdDTO::from("t-1".to_string()).task_id, "t-1");
    let d = WorkerWorkDetailsDTO::from(worker(9, 4));
    assert_eq!(d, WorkerWorkDetailsDTO { total_lifetime_tasks: 9, current_no_of_tasks_for_payout: 4, payout_status: PaymentStatus::NOT_ELIGIBLE });
    let n = NaunceAuth { naunce: 77, user_wallet_addrss: "w".to_string(), used: false, exp: UtcTime { secs: 1, nanos: 0 } };
    assert_eq!(NaunceAuthStruct::from(n).naunce, 77);
    let t = TaskDetailsWithOptionsDTO::from(("tid".to_string(), vec![option(2)]));
    assert_eq!(t.task_id, "tid");
    assert_eq!(t.task_options, vec![option(2)]);
}

#[test]
fn worker_gets_the_first_open_task() {
    let tasks = vec![task(1000, TaskUpdates::COMPLETED), task(1000, TaskUpdates::ACTIVE), task(3, TaskUpdates::ACTIVE), task(0, TaskUpdates::ACTIVE)];
    assert_eq!(first_open_task(&tasks), Some(2));
    assert_eq!(first_open_task(&tasks[..2].to_vec()), None);
    assert_eq!(first_open_task(&vec![]), None);
}

#[test]
fn refused_submission_without_a_missing_row_is_a_server_error() {
    let f = unrecordable_submission();
    assert_eq!(f.kind, DbFailureKind::Other);
    let e = worker_task_submission_error(&f);
    assert_eq!(e.status, 500);
    assert_eq!(e.message, "the submission cannot be recorded: its option does not exist or a counter is full");
}
