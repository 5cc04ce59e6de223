//! A wallet's sign-in request.

use crate::models::user::UserTypeEnum;
use vstd::prelude::*;

verus! {

/// The signature over the nonce message, the wallet's public key, the role it
/// signs in with and the nonce it signed.
#[derive(Clone, Debug, PartialEq, Eq)]
pub struct SignInUserDTO {
    pub sign: Vec<u8>,
    pub publickey: String,
    pub user_type: UserTypeEnum,
    pub naunce: u128,
}

} // verus!
