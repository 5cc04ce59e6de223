//! The rows of the service's tables and the values inserted into them.

pub mod creator_payment;
pub mod submission_details;
pub mod task;
pub mod task_options;
pub mod user;
pub mod worker_payouts;
pub mod worker_work_details;
