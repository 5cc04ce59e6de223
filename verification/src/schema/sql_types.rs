//! Markers for the enumerated SQL types of the database.

use vstd::prelude::*;

verus! {

/// The SQL type `pay_status`.
pub struct PayStatus;

/// The SQL type `payout_status`.
pub struct PayoutStatus;

/// The SQL type `task_status`.
pub struct TaskStatus;

/// The SQL type `user_type`.
pub struct UserType;

} // verus!
