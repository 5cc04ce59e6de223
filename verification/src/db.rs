//! How a database call can fail, as far as the service's answers depend on it.

use crate::errors::{answer, PersErrors, INTERNAL_SERVER_ERROR};
use vstd::prelude::*;

verus! {

/// The kind of a failed database call.
#[derive(Clone, Copy, Debug, PartialEq, Eq, Structural)]
pub enum DbFailureKind {
    /// The query matched no row.
    NotFound,
    /// An insert broke a uniqueness constraint.
    UniqueViolation,
    /// Any other failure.
    Other,
}

/// A failed database call: its kind and the error's text.
#[derive(Clone, Debug, PartialEq, Eq)]
pub struct DbFailure {
    pub kind: DbFailureKind,
    pub text: String,
}

/// 500 "failed to create db pool: <detail>".
pub fn pool_not_created(detail: &str) -> (e: PersErrors)
    ensures
        e@ == answer(INTERNAL_SERVER_ERROR, "failed to create db pool: "@ + detail@),
{
    PersErrors::with_detail("failed to create db pool: ", detail, INTERNAL_SERVER_ERROR)
}

/// 500 "failed to con from con pool =><detail>".
pub fn no_pooled_connection(detail: &str) -> (e: PersErrors)
    ensures
        e@ == answer(INTERNAL_SERVER_ERROR, "failed to con from con pool =>"@ + detail@),
{
    PersErrors::with_detail("failed to con from con pool =>", detail, INTERNAL_SERVER_ERROR)
}

/// 500 with the error's own text: the answer to a failed query where the
/// service passes the failure on as it is.
pub fn query_failed(failure: &DbFailure) -> (e: PersErrors)
    ensures
        e@ == answer(INTERNAL_SERVER_ERROR, failure.text@),
{
    PersErrors::from_text(failure.text.as_str(), INTERNAL_SERVER_ERROR)
}

} // verus!
