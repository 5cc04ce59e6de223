//! Sign-in and image uploads.

use crate::errors::{answer, outcome, PersErrors, PersErrorsView, BAD_REQUEST};
use crate::ids::{uuid_text, uuid_to_string};
use vstd::prelude::*;

verus! {

/// Where a creator uploads an image: the upload URL, the image's id, and the
/// creator's user id.
#[derive(Clone, Debug, PartialEq, Eq)]
pub struct S3ImageData {
    pub url: String,
    pub img_id: String,
    pub user_id: String,
}

/// What `gen_url` answers for the (image id, URL) pair of a presigned upload
/// made for this user.
pub fn s3_image_data(presigned: (String, String), user_id: u128) -> (res: S3ImageData)
    ensures
        res.url == presigned.1,
        res.img_id == presigned.0,
        res.user_id@ == uuid_text(user_id),
{
    S3ImageData { url: presigned.1, img_id: presigned.0, user_id: uuid_to_string(user_id) }
}

/// A signature that does not verify ends sign-in with 400 "wallet cannot be verified".
pub open spec fn signature_verdict(verified: bool) -> Result<(), PersErrorsView> {
    if verified {
        Ok(())
    } else {
        Err(answer(BAD_REQUEST, "wallet cannot be verified"@))
    }
}

/// Whether `sign_in` goes on after checking the wallet's signature.
pub fn wallet_verdict(verified: bool) -> (res: Result<(), PersErrors>)
    ensures
        outcome(res) == signature_verdict(verified),
{
    if verified {
        Ok(())
    } else {
        Err(PersErrors::from_text("wallet cannot be verified", BAD_REQUEST))
    }
}

} // verus!
