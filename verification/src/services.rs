//! The service's rules: users and sign-in, tasks, and workers' submissions.

pub mod tasks;
pub mod users;
pub mod worker;
