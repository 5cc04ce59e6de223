//! The checks that stand before the routes: who the caller is, and whether
//! its role may use the route.

pub mod auth_middleware;
pub mod user_type_middleware;
