//! Verified core of the CTR Checker backend: the data model, the rules that
//! decide who may do what, the task lifecycle, wallet sign-in with one-time
//! nonces, and the error answers the service gives.

pub mod time;
pub mod ids;
pub mod errors;
pub mod models;
pub mod schema;
pub mod structs;
pub mod dtos;
pub mod middlewares;
pub mod utils;
pub mod db;
pub mod services;
pub mod routes;
pub mod redis;
