//! The nonce handed to a wallet that wants to sign in.

use crate::structs::NaunceAuth;
use vstd::prelude::*;

verus! {

/// The part of a nonce that the client sees.
#[derive(Clone, Copy, Debug, PartialEq, Eq)]
pub struct NaunceAuthStruct {
    pub naunce: u128,
}

impl NaunceAuthStruct {
    /// Keeps the nonce itself and nothing else.
    pub fn from(one_time_auth_data: NaunceAuth) -> (res: NaunceAuthStruct)
        ensures
            res.naunce == one_time_auth_data.naunce,
    {
        NaunceAuthStruct { naunce: one_time_auth_data.naunce }
    }
}

} // verus!
