//! What a signed-in user carries, and the one-time nonce of wallet sign-in.

use crate::models::user::UserTypeEnum;
use crate::time::UtcTime;
use vstd::prelude::*;

verus! {

/// The claims of a user's token.
#[derive(Clone, Debug, PartialEq, Eq)]
pub struct EncodedUserData {
    pub user_id: u128,
    pub user_wallet_address: String,
    pub user_type: UserTypeEnum,
    pub exp: usize,
}

/// A one-time nonce that a wallet signs to sign in, kept for five minutes.
#[derive(Clone, Debug, PartialEq, Eq)]
pub struct NaunceAuth {
    pub naunce: u128,
    pub user_wallet_addrss: String,
    pub used: bool,
    pub exp: UtcTime,
}

} // verus!
