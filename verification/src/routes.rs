//! What the routes answer once the services have done their work.

pub mod user_routes;
pub mod worker_routes;
