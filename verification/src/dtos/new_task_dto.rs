//! A creator's request for a new task.

use vstd::prelude::*;

verus! {

/// The images of the task, the signature of the payment transaction and the
/// payment's id.
#[derive(Clone, Debug, PartialEq, Eq)]
pub struct NewTaskDTO {
    pub images: Vec<String>,
    pub txn_sign: String,
    pub payment_id: u128,
}

} // verus!
