//! The error answer of the service: an HTTP status and a message.

use vstd::prelude::*;

verus! {

pub const BAD_REQUEST: u16 = 400;
pub const UNAUTHORIZED: u16 = 401;
pub const FORBIDDEN: u16 = 403;
pub const CONFLICT: u16 = 409;
pub const FAILED_DEPENDENCY: u16 = 424;
pub const INTERNAL_SERVER_ERROR: u16 = 500;

/// An error answered to a client: the message and the HTTP status code.
#[derive(Debug, Clone, PartialEq, Eq)]
pub struct PersErrors {
    pub message: String,
    pub status: u16,
}

/// What an error says: its status and the text of its message.
pub struct PersErrorsView {
    pub status: u16,
    pub message: Seq<char>,
}

impl View for PersErrors {
    type V = PersErrorsView;

    open spec fn view(&self) -> PersErrorsView {
        PersErrorsView { status: self.status, message: self.message@ }
    }
}

/// The error with this status and message text.
pub open spec fn answer(status: u16, message: Seq<char>) -> PersErrorsView {
    PersErrorsView { status, message }
}

/// A result whose error is taken by what it says.
pub open spec fn outcome<T>(r: Result<T, PersErrors>) -> Result<T, PersErrorsView> {
    match r {
        Ok(v) => Ok(v),
        Err(e) => Err(e@),
    }
}

impl PersErrors {
    /// An error with this message and status.
    pub fn new(mes: String, status: u16) -> (e: PersErrors)
        ensures
            e.message == mes,
            e.status == status,
    {
        PersErrors { message: mes, status }
    }

    /// An error with this status whose message is the text `mes`.
    pub fn from_text(mes: &str, status: u16) -> (e: PersErrors)
        ensures
            e@ == answer(status, mes@),
    {
        PersErrors { message: String::from_str(mes), status }
    }

    /// An error with this status whose message is `prefix` followed by `detail`.
    pub fn with_detail(prefix: &str, detail: &str, status: u16) -> (e: PersErrors)
        ensures
            e@ == answer(status, prefix@ + detail@),
    {
        let mut message = String::from_str(prefix);
        message.append(detail);
        PersErrors { message, status }
    }
}

} // verus!
