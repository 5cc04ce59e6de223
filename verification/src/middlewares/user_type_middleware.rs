//! Which role may use which routes: task routes are for creators, work routes
//! for workers.

use crate::errors::{answer, outcome, PersErrors, PersErrorsView, BAD_REQUEST, UNAUTHORIZED};
use crate::models::user::UserTypeEnum;
use crate::structs::EncodedUserData;
use vstd::prelude::*;

verus! {

/// The role of the signed-in user, if the request carries one.
pub open spec fn role_of(user_data: Option<&EncodedUserData>) -> Option<UserTypeEnum> {
    match user_data {
        Some(u) => Some(u.user_type),
        None => None,
    }
}

/// Creator routes: creators pass; workers get 401; a request without user data gets 400.
pub open spec fn creator_gate(role: Option<UserTypeEnum>) -> Result<(), PersErrorsView> {
    match role {
        None => Err(answer(BAD_REQUEST, "user data is not present"@)),
        Some(UserTypeEnum::CREATOR) => Ok(()),
        Some(UserTypeEnum::WORKER) => Err(
            answer(UNAUTHORIZED, "user of type worker , cannot create taks"@),
        ),
    }
}

/// Worker routes: workers pass; creators get 401; a request without user data gets 400.
pub open spec fn worker_gate(role: Option<UserTypeEnum>) -> Result<(), PersErrorsView> {
    match role {
        None => Err(answer(BAD_REQUEST, "user data is not present"@)),
        Some(UserTypeEnum::CREATOR) => Err(
            answer(UNAUTHORIZED, "user of type creator , cannot do worker task"@),
        ),
        Some(UserTypeEnum::WORKER) => Ok(()),
    }
}

/// Lets a request through to a creator route, or says why not.
pub fn creator_validator_middleware(user_data: Option<&EncodedUserData>) -> (res: Result<(), PersErrors>)
    ensures
        outcome(res) == creator_gate(role_of(user_data)),
{
    match user_data {
        None => Err(PersErrors::from_text("user data is not present", BAD_REQUEST)),
        Some(u) => match u.user_type {
            UserTypeEnum::CREATOR => Ok(()),
            UserTypeEnum::WORKER => Err(
                PersErrors::from_text("user of type worker , cannot create taks", UNAUTHORIZED),
            ),
        },
    }
}

/// Lets a request through to a worker route, or says why not.
pub fn worker_validator_middleware(user_data: Option<&EncodedUserData>) -> (res: Result<(), PersErrors>)
    ensures
        outcome(res) == worker_gate(role_of(user_data)),
{
    match user_data {
        None => Err(PersErrors::from_text("user data is not present", BAD_REQUEST)),
        Some(u) => match u.user_type {
            UserTypeEnum::CREATOR => Err(
                PersErrors::from_text("user of type creator , cannot do worker task", UNAUTHORIZED),
            ),
            UserTypeEnum::WORKER => Ok(()),
        },
    }
}

/// Every signed-in user passes exactly one of the two gates: creators the
/// creator routes, workers the worker routes.
pub proof fn lemma_each_role_has_one_side(role: UserTypeEnum)
    ensures
        creator_gate(Some(role)) is Ok <==> !(worker_gate(Some(role)) is Ok),
        creator_gate(Some(role)) is Ok <==> role == UserTypeEnum::CREATOR,
        worker_gate(Some(role)) is Ok <==> role == UserTypeEnum::WORKER,
{
}

/// A request that carries no user data passes neither gate, and both answer it
/// with the same 400.
pub proof fn lemma_anonymous_passes_no_gate()
    ensures
        creator_gate(None) is Err,
        worker_gate(None) is Err,
        creator_gate(None) == worker_gate(None),
{
}

} // verus!
