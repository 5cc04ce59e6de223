//! Users: a wallet address registered as a creator or as a worker.

use vstd::prelude::*;

verus! {

/// The role a wallet signs in with.
#[allow(non_camel_case_types)]
#[derive(Clone, Copy, Debug, PartialEq, Eq, Structural)]
pub enum UserTypeEnum {
    CREATOR,
    WORKER,
}

/// A row of the users table.
#[derive(Clone, Debug, PartialEq, Eq)]
pub struct UserStruct {
    pub id: u128,
    pub user_wallet_address: String,
    pub userr_type: UserTypeEnum,
}

/// A user to insert.
#[derive(Clone, Debug, PartialEq, Eq)]
pub struct NewUser {
    pub user_wallet_address: String,
    pub userr_type: UserTypeEnum,
}

} // verus!
