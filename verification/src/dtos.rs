//! The shapes of what clients send and receive.

pub mod naunce_auth_dto;
pub mod new_task_dto;
pub mod sign_in_user_dto;
pub mod task_details_with_options_dto;
pub mod task_dto;
pub mod task_id_dto;
pub mod task_submission_data_dto;
pub mod worker_work_details_dto;
