//! Users: finding or registering a wallet, signing in with a one-time nonce,
//! and uploading task images.

use crate::db::{DbFailure, DbFailureKind};
use crate::errors::{
    answer, outcome, PersErrors, PersErrorsView, BAD_REQUEST, CONFLICT, FAILED_DEPENDENCY, FORBIDDEN,
    INTERNAL_SERVER_ERROR, UNAUTHORIZED,
};
use crate::ids::{is_v4_uuid, lemma_uuid_text_injective, new_v4_uuid, uuid_text, uuid_to_string};
use crate::models::user::{NewUser, UserStruct, UserTypeEnum};
use crate::models::worker_work_details::{NewOrUpdateWorkerWorkDetails, PaymentStatus};
use crate::structs::NaunceAuth;
use crate::time::{utc_now, UtcTime, MAX_TIMESTAMP};
use crate::utils::wallet::{ed25519_verifies, parse_pubkey, pubkey_from_base58, verify_signature};
use vstd::prelude::*;

verus! {

// ---------------------------------------------------------------------------
// Finding or registering a user

/// What looking a wallet up answers: found (with the user), not found, or the
/// error 500 "error fetching user <wallet>: <failure>".
pub open spec fn lookup_outcome(
    lookup: Result<UserStruct, DbFailure>,
    user_wallet_address: Seq<char>,
) -> Result<(bool, Option<UserStruct>), PersErrorsView> {
    match lookup {
        Ok(user) => Ok((true, Some(user))),
        Err(f) => if f.kind == DbFailureKind::NotFound {
            Ok((false, None))
        } else {
            Err(
                answer(
                    INTERNAL_SERVER_ERROR,
                    "error fetching user "@ + user_wallet_address + ": "@ + f.text@,
                ),
            )
        },
    }
}

/// Whether the wallet already has a user with this role, given the result of
/// looking it up.
pub fn check_user(lookup: Result<UserStruct, DbFailure>, user_wallet_address: &str) -> (res: Result<
    (bool, Option<UserStruct>),
    PersErrors,
>)
    ensures
        outcome(res) == lookup_outcome(lookup, user_wallet_address@),
        lookup matches Ok(u) ==> res == Ok::<(bool, Option<UserStruct>), PersErrors>((true, Some(u))),
        lookup matches Err(f) && f.kind == DbFailureKind::NotFound ==> res == Ok::<
            (bool, Option<UserStruct>),
            PersErrors,
        >((false, None)),
{
    match lookup {
        Ok(user) => Ok((true, Some(user))),
        Err(f) => {
            if f.kind == DbFailureKind::NotFound {
                Ok((false, None))
            } else {
                let mut message = String::from_str("error fetching user ");
                message.append(user_wallet_address);
                message.append(": ");
                message.append(f.text.as_str());
                Err(PersErrors::new(message, INTERNAL_SERVER_ERROR))
            }
        },
    }
}

/// A user that the lookup found is reported as existing, and returned as it
/// is, whatever its role and its wallet; a lookup that found nothing reports a
/// new wallet, whatever the wallet. Only another failure is an error.
pub proof fn lemma_found_user_exists(
    u: UserStruct,
    failure: DbFailure,
    user_wallet_address: Seq<char>,
)
    ensures
        lookup_outcome(Ok(u), user_wallet_address) == Ok::<(bool, Option<UserStruct>), PersErrorsView>(
            (true, Some(u)),
        ),
        failure.kind == DbFailureKind::NotFound ==> lookup_outcome(Err(failure), user_wallet_address)
            == Ok::<(bool, Option<UserStruct>), PersErrorsView>((false, None)),
        failure.kind != DbFailureKind::NotFound ==> lookup_outcome(Err(failure), user_wallet_address) is Err,
{
}

/// The next step of `get_or_create_user`.
pub enum UserLookupStep {
    /// Sign-in goes on with this user, or stops with this error.
    Done(Result<UserStruct, PersErrors>),
    /// The wallet has no user with this role yet: register it.
    CreateUser,
}

/// 500 "user is neitng present nor we are able to create it ".
pub open spec fn user_unavailable() -> PersErrorsView {
    answer(INTERNAL_SERVER_ERROR, "user is neitng present nor we are able to create it "@)
}

/// What `get_or_create_user` does with what `check_user` found: a known user
/// is used as it is, an unknown one is registered; a known user that came
/// back without its row is an error.
pub fn get_or_create_user(is_existing_user: bool, user: Option<UserStruct>) -> (step: UserLookupStep)
    ensures
        !is_existing_user ==> step is CreateUser,
        is_existing_user ==> match user {
            Some(u) => step matches UserLookupStep::Done(r) && r == Ok::<UserStruct, PersErrors>(u),
            None => step matches UserLookupStep::Done(r) && outcome(r) == Err::<
                UserStruct,
                PersErrorsView,
            >(user_unavailable()),
        },
{
    if !is_existing_user {
        UserLookupStep::CreateUser
    } else {
        match user {
            Some(u) => UserLookupStep::Done(Ok(u)),
            None => UserLookupStep::Done(
                Err(
                    PersErrors::from_text(
                        "user is neitng present nor we are able to create it ",
                        INTERNAL_SERVER_ERROR,
                    ),
                ),
            ),
        }
    }
}

/// The user row that `create_new_user` inserts: this wallet with this role.
pub fn new_user_record(user_wallet_address: &str, user_type: UserTypeEnum) -> (u: NewUser)
    ensures
        u.user_wallet_address@ == user_wallet_address@,
        u.userr_type == user_type,
{
    NewUser { user_wallet_address: user_wallet_address.to_owned(), userr_type: user_type }
}

/// The work details a worker starts with: no tasks, nothing to pay out, not
/// eligible for a payout, no withdrawal.
pub open spec fn is_initial_work_details(d: NewOrUpdateWorkerWorkDetails, wallet: Seq<char>) -> bool {
    &&& d.worker_wallet_address@ == wallet
    &&& d.total_lifetime_tasks == 0
    &&& d.current_no_of_tasks_for_payout == 0
    &&& d.payout_status == PaymentStatus::NOT_ELIGIBLE
    &&& d.txn_hash_of_withdrawal is None
}

/// The work details that `create_new_user` inserts beside a new user: for a
/// worker, the initial details of its wallet; for a creator, none.
pub fn initial_work_details(inserted: &UserStruct, user_wallet_address: &str) -> (d: Option<
    NewOrUpdateWorkerWorkDetails,
>)
    ensures
        d is Some <==> inserted.userr_type == UserTypeEnum::WORKER,
        d matches Some(details) ==> is_initial_work_details(details, user_wallet_address@),
{
    match inserted.userr_type {
        UserTypeEnum::CREATOR => None,
        UserTypeEnum::WORKER => Some(
            NewOrUpdateWorkerWorkDetails {
                worker_wallet_address: user_wallet_address.to_owned(),
                total_lifetime_tasks: 0,
                current_no_of_tasks_for_payout: 0,
                payout_status: PaymentStatus::NOT_ELIGIBLE,
                txn_hash_of_withdrawal: None,
            },
        ),
    }
}

/// How a role is written in messages.
pub open spec fn role_text(user_type: UserTypeEnum) -> Seq<char> {
    match user_type {
        UserTypeEnum::CREATOR => "CREATOR"@,
        UserTypeEnum::WORKER => "WORKER"@,
    }
}

/// What a failed registration answers: 409 "wallet address <wallet> already
/// exists as a <ROLE>" when the wallet is taken, else 500 "new user insertion
/// failed => <failure>".
pub open spec fn registration_failure(
    failure: DbFailure,
    user_wallet_address: Seq<char>,
    user_type: UserTypeEnum,
) -> PersErrorsView {
    if failure.kind == DbFailureKind::UniqueViolation {
        answer(
            CONFLICT,
            "wallet address "@ + user_wallet_address + " already exists as a "@ + role_text(
                user_type,
            ),
        )
    } else {
        answer(INTERNAL_SERVER_ERROR, "new user insertion failed => "@ + failure.text@)
    }
}

/// The error `create_new_user` answers when its transaction fails.
pub fn create_new_user_error(
    failure: &DbFailure,
    user_wallet_address: &str,
    user_type: UserTypeEnum,
) -> (e: PersErrors)
    ensures
        e@ == registration_failure(*failure, user_wallet_address@, user_type),
{
    if failure.kind == DbFailureKind::UniqueViolation {
        let mut message = String::from_str("wallet address ");
        message.append(user_wallet_address);
        message.append(" already exists as a ");
        match user_type {
            UserTypeEnum::CREATOR => message.append("CREATOR"),
            UserTypeEnum::WORKER => message.append("WORKER"),
        }
        PersErrors::new(message, CONFLICT)
    } else {
        PersErrors::with_detail("new user insertion failed => ", failure.text.as_str(), INTERNAL_SERVER_ERROR)
    }
}

// ---------------------------------------------------------------------------
// Images of tasks

/// The largest image a creator may upload: 2 MiB.
pub const MAX_UPLOAD_BYTES: i64 = 2_097_152;

/// How long an upload URL stays valid: 5 minutes.
pub const UPLOAD_URL_LIFETIME_SECS: u64 = 300;

/// Files up to 2 MiB may be uploaded; larger ones get 403 "file size cannot be
/// greater that 2 mb ".
pub open spec fn upload_size_outcome(file_size: i64) -> Result<(), PersErrorsView> {
    if file_size > MAX_UPLOAD_BYTES {
        Err(answer(FORBIDDEN, "file size cannot be greater that 2 mb "@))
    } else {
        Ok(())
    }
}

/// The size check of `generate_presigned_url`.
pub fn check_upload_size(file_size: i64) -> (res: Result<(), PersErrors>)
    ensures
        outcome(res) == upload_size_outcome(file_size),
{
    if file_size > MAX_UPLOAD_BYTES {
        Err(PersErrors::from_text("file size cannot be greater that 2 mb ", FORBIDDEN))
    } else {
        Ok(())
    }
}

/// Where an image is stored in the bucket: `<key>/<user id>/<image id>`.
pub open spec fn object_key(key: Seq<char>, user_id: Seq<char>, img_id: Seq<char>) -> Seq<char> {
    key + "/"@ + user_id + "/"@ + img_id
}

/// A media type of the image family: `image/` and a subtype.
pub open spec fn is_image_media_type(t: Seq<char>) -> bool {
    t.len() > 6 && t.take(6) == "image/"@
}

/// The content type an upload URL is bound to. A presigned PUT admits one
/// exact `Content-Type`, and uploads are images of any kind, so the URL names
/// the image family: the upload must declare `image/*`.
pub open spec fn upload_content_type() -> Seq<char> {
    "image/*"@
}

/// A new image's id, the bucket key it is uploaded to, and what the upload URL
/// admits: exactly `content_length` bytes, declared as `content_type`.
pub struct UploadTarget {
    pub img_id: String,
    pub object_key: String,
    pub content_length: i64,
    pub content_type: String,
}

/// A fresh image id (a random version-4 UUID, as text), its bucket key under
/// the user's folder, and the upload's restrictions: the announced file size
/// and an image content type.
pub fn new_upload_target(key: &str, user_id: &str, file_size: i64) -> (t: UploadTarget)
    ensures
        exists|id: u128| is_v4_uuid(id) && #[trigger] uuid_text(id) == t.img_id@,
        t.object_key@ == object_key(key@, user_id@, t.img_id@),
        t.content_length == file_size,
        t.content_type@ == upload_content_type(),
        is_image_media_type(t.content_type@),
{
    let id = new_v4_uuid();
    let img_id = uuid_to_string(id);
    let mut path = String::from_str(key);
    path.append("/");
    path.append(user_id);
    path.append("/");
    path.append(img_id.as_str());
    assert(uuid_text(id) == img_id@);
    let content_type = String::from_str("image/*");
    proof {
        reveal_strlit("image/*");
        reveal_strlit("image/");
        assert(content_type@.take(6) =~= "image/"@);
    }
    UploadTarget { img_id, object_key: path, content_length: file_size, content_type }
}

/// 500 "getting error while fetching bucket name from env <detail>".
pub fn bucket_missing(detail: &str) -> (e: PersErrors)
    ensures
        e@ == answer(
            INTERNAL_SERVER_ERROR,
            "getting error while fetching bucket name from env "@ + detail@,
        ),
{
    PersErrors::with_detail(
        "getting error while fetching bucket name from env ",
        detail,
        INTERNAL_SERVER_ERROR,
    )
}

/// 500 "getting error while fetching bucket name key from env <detail>".
pub fn bucket_key_missing(detail: &str) -> (e: PersErrors)
    ensures
        e@ == answer(
            INTERNAL_SERVER_ERROR,
            "getting error while fetching bucket name key from env "@ + detail@,
        ),
{
    PersErrors::with_detail(
        "getting error while fetching bucket name key from env ",
        detail,
        INTERNAL_SERVER_ERROR,
    )
}

/// 500 "presigned_error <detail>".
pub fn presigning_failed(detail: &str) -> (e: PersErrors)
    ensures
        e@ == answer(INTERNAL_SERVER_ERROR, "presigned_error "@ + detail@),
{
    PersErrors::with_detail("presigned_error ", detail, INTERNAL_SERVER_ERROR)
}

/// 424 with the error's text: the upload URL's settings were refused.
pub fn presigning_config_invalid(detail: &str) -> (e: PersErrors)
    ensures
        e@ == answer(FAILED_DEPENDENCY, detail@),
{
    PersErrors::from_text(detail, FAILED_DEPENDENCY)
}

// ---------------------------------------------------------------------------
// Signing in with a one-time nonce

/// How long a nonce may be used: 5 minutes.
pub const NAUNCE_LIFETIME_SECS: i64 = 300;

/// The nonce issued to `wallet` at `now`: unused, and expiring 5 minutes later.
pub open spec fn naunce_issued_at(naunce: u128, wallet: Seq<char>, now: UtcTime, n: NaunceAuth) -> bool {
    &&& n.naunce == naunce
    &&& n.user_wallet_addrss@ == wallet
    &&& !n.used
    &&& n.exp == UtcTime { secs: (now.secs + NAUNCE_LIFETIME_SECS) as i64, nanos: now.nanos }
}

/// The nonce `naunce` issued to this wallet at `now`.
pub fn naunce_auth_at(naunce: u128, user_wallet_address: &str, now: UtcTime) -> (n: NaunceAuth)
    requires
        now.secs + NAUNCE_LIFETIME_SECS <= MAX_TIMESTAMP,
    ensures
        naunce_issued_at(naunce, user_wallet_address@, now, n),
{
    NaunceAuth {
        naunce,
        user_wallet_addrss: user_wallet_address.to_owned(),
        used: false,
        exp: now.plus_secs(NAUNCE_LIFETIME_SECS),
    }
}

/// Whether a clock reading is so late that five minutes more leave chrono's
/// range (where adding them panics).
pub open spec fn naunce_clock_too_late(now: UtcTime) -> bool {
    now.secs > MAX_TIMESTAMP - NAUNCE_LIFETIME_SECS
}

/// What issuing the nonce `naunce` to `wallet` at `now` gives: nothing when
/// the clock is too late, else the nonce issued at `now`.
pub open spec fn naunce_for_clock(
    naunce: u128,
    wallet: Seq<char>,
    now: UtcTime,
    res: Option<NaunceAuth>,
) -> bool {
    if naunce_clock_too_late(now) {
        res is None
    } else {
        res matches Some(n) && naunce_issued_at(naunce, wallet, now, n)
    }
}

/// Issues the nonce `naunce` to this wallet at the clock reading `now`:
/// `None` exactly when five more minutes would leave chrono's range.
pub fn naunce_auth_for_clock(naunce: u128, user_wallet_address: &str, now: UtcTime) -> (res: Option<
    NaunceAuth,
>)
    ensures
        naunce_for_clock(naunce, user_wallet_address@, now, res),
        res is None <==> now.secs > MAX_TIMESTAMP - NAUNCE_LIFETIME_SECS,
{
    if now.secs > MAX_TIMESTAMP - NAUNCE_LIFETIME_SECS {
        None
    } else {
        Some(naunce_auth_at(naunce, user_wallet_address, now))
    }
}

/// A fresh nonce for this wallet: a random version-4 UUID, issued at the
/// clock's reading. The outcome is that of `naunce_auth_for_clock` on that
/// UUID and that reading: `None` only when the reading is within five minutes
/// of the end of chrono's range.
pub fn generate_naunce_data_for_autheticate_account(user_wallet_address: &str) -> (res: Option<NaunceAuth>)
    ensures
        exists|id: u128, now: UtcTime|
            is_v4_uuid(id) && 0 <= now.secs <= MAX_TIMESTAMP && now.nanos < 1_000_000_000
                && #[trigger] naunce_for_clock(id, user_wallet_address@, now, res),
        res is None ==> exists|now: UtcTime|
            MAX_TIMESTAMP - NAUNCE_LIFETIME_SECS < now.secs <= MAX_TIMESTAMP && #[trigger]
            naunce_clock_too_late(now),
        res matches Some(n) ==> is_v4_uuid(n.naunce) && exists|now: UtcTime|
            0 <= now.secs && now.nanos < 1_000_000_000 && #[trigger] naunce_issued_at(
                n.naunce,
                user_wallet_address@,
                now,
                n,
            ),
{
    let naunce = new_v4_uuid();
    let now = utc_now();
    let res = naunce_auth_for_clock(naunce, user_wallet_address, now);
    res
}

/// The key under which a nonce is kept: `naunce:$<uuid>`.
pub open spec fn naunce_key(naunce: u128) -> Seq<char> {
    "naunce:$"@ + uuid_text(naunce)
}

/// The key under which a nonce is kept.
pub fn naunce_redis_key(naunce: u128) -> (key: String)
    ensures
        key@ == naunce_key(naunce),
{
    let mut key = String::from_str("naunce:$");
    let id = uuid_to_string(naunce);
    key.append(id.as_str());
    key
}

/// Each nonce is kept under a key of its own.
pub proof fn lemma_naunce_keys_distinct(a: u128, b: u128)
    requires
        a != b,
    ensures
        naunce_key(a) != naunce_key(b),
{
    lemma_uuid_text_injective(a, b);
    let p = "naunce:$"@;
    if naunce_key(a) == naunce_key(b) {
        assert(naunce_key(a).subrange(p.len() as int, naunce_key(a).len() as int) =~= uuid_text(a));
        assert(naunce_key(b).subrange(p.len() as int, naunce_key(b).len() as int) =~= uuid_text(b));
    }
}

/// The message a wallet signs to prove it holds its key.
pub open spec fn naunce_message(naunce: u128) -> Seq<char> {
    "sign this message to authenticate with CTR Checker: "@ + uuid_text(naunce)
}

/// The message a wallet signs for this nonce.
pub fn sign_in_message(naunce: u128) -> (m: String)
    ensures
        m@ == naunce_message(naunce),
{
    let mut m = String::from_str("sign this message to authenticate with CTR Checker: ");
    let id = uuid_to_string(naunce);
    m.append(id.as_str());
    m
}

/// A signature made for one nonce is over a message that no other nonce has,
/// so it cannot be presented again for another nonce.
pub proof fn lemma_sign_in_messages_distinct(a: u128, b: u128)
    requires
        a != b,
    ensures
        naunce_message(a) != naunce_message(b),
{
    lemma_uuid_text_injective(a, b);
    let p = "sign this message to authenticate with CTR Checker: "@;
    if naunce_message(a) == naunce_message(b) {
        assert(naunce_message(a).subrange(p.len() as int, naunce_message(a).len() as int) =~= uuid_text(a));
        assert(naunce_message(b).subrange(p.len() as int, naunce_message(b).len() as int) =~= uuid_text(b));
    }
}

/// 500 "error while converting naunce to json => $<detail>".
pub fn naunce_not_serialised(detail: &str) -> (e: PersErrors)
    ensures
        e@ == answer(INTERNAL_SERVER_ERROR, "error while converting naunce to json => $"@ + detail@),
{
    PersErrors::with_detail("error while converting naunce to json => $", detail, INTERNAL_SERVER_ERROR)
}

/// What checking a signed nonce answers at `now`. In order: an expired nonce
/// gets 400; a key other than the nonce's wallet gets 401; a key that is not
/// a base58 public key gets 500 with the parse error; a signature that is not
/// 64 bytes gets 400; otherwise the answer is whether the signature of the
/// nonce's message verifies under the key.
pub open spec fn signed_naunce_outcome(
    stored: NaunceAuth,
    now: UtcTime,
    signature: Seq<u8>,
    publickey: Seq<char>,
    naunce: u128,
) -> Result<bool, PersErrorsView> {
    if now.later_than(stored.exp) {
        Err(answer(BAD_REQUEST, "signature have been expired , please validte again"@))
    } else if publickey != stored.user_wallet_addrss@ {
        Err(answer(UNAUTHORIZED, "wallet address mismatch"@))
    } else {
        match pubkey_from_base58(publickey) {
            Err(text) => Err(answer(INTERNAL_SERVER_ERROR, text)),
            Ok(key) => if signature.len() != 64 {
                Err(answer(BAD_REQUEST, "signature must be of 64 bytes array"@))
            } else {
                Ok(ed25519_verifies(signature, key, naunce_message(naunce)))
            },
        }
    }
}

/// Checks at `now` a signature of the nonce `naunce`, whose stored data is
/// `naunce_data`, made by the wallet `publickey`.
pub fn check_signed_naunce(
    naunce_data: &NaunceAuth,
    now: UtcTime,
    message_signature: &Vec<u8>,
    publickey: &str,
    naunce: u128,
) -> (res: Result<bool, PersErrors>)
    ensures
        outcome(res) == signed_naunce_outcome(
            *naunce_data,
            now,
            message_signature@,
            publickey@,
            naunce,
        ),
{
    if now.is_after(&naunce_data.exp) {
        return Err(
            PersErrors::from_text(
                "signature have been expired , please validte again",
                BAD_REQUEST,
            ),
        );
    }
    let same_wallet = naunce_data.user_wallet_addrss.eq(&publickey.to_owned());
    if !same_wallet {
        return Err(PersErrors::from_text("wallet address mismatch", UNAUTHORIZED));
    }
    let message = sign_in_message(naunce);
    let key = match parse_pubkey(publickey) {
        Ok(k) => k,
        Err(text) => {
            return Err(PersErrors::new(text, INTERNAL_SERVER_ERROR));
        },
    };
    if message_signature.len() != 64 {
        return Err(PersErrors::from_text("signature must be of 64 bytes array", BAD_REQUEST));
    }
    let verified = verify_signature(message_signature, &key, message.as_str());
    Ok(verified)
}

/// `verify_user_wallet_signature` once the nonce's data has been read: checks
/// the signature against the clock as it reads now.
pub fn verify_user_wallet_signature(
    naunce_data: &NaunceAuth,
    message_signature: &Vec<u8>,
    publickey: &str,
    naunce: u128,
) -> (res: Result<bool, PersErrors>)
    ensures
        exists|now: UtcTime|
            0 <= now.secs <= MAX_TIMESTAMP && now.nanos < 1_000_000_000 && outcome(res)
                == #[trigger] signed_naunce_outcome(
                *naunce_data,
                now,
                message_signature@,
                publickey@,
                naunce,
            ),
{
    let now = utc_now();
    check_signed_naunce(naunce_data, now, message_signature, publickey, naunce)
}

/// A nonce issued to a wallet at `issued` and checked, with that wallet's own
/// key, at any time up to its expiry is neither expired nor refused for the
/// wallet: the answer is the signature check itself, unless the key does not
/// parse or the signature is not 64 bytes.
pub proof fn lemma_fresh_naunce_is_checked_by_signature(
    naunce: u128,
    wallet: Seq<char>,
    issued: UtcTime,
    n: NaunceAuth,
    now: UtcTime,
    signature: Seq<u8>,
)
    requires
        naunce_issued_at(naunce, wallet, issued, n),
        0 <= issued.secs + NAUNCE_LIFETIME_SECS <= MAX_TIMESTAMP,
        !now.later_than(n.exp),
        pubkey_from_base58(wallet) is Ok,
        signature.len() == 64,
    ensures
        signed_naunce_outcome(n, now, signature, wallet, naunce) == Ok::<bool, PersErrorsView>(
            ed25519_verifies(signature, pubkey_from_base58(wallet)->Ok_0, naunce_message(naunce)),
        ),
{
}

/// A nonce is refused once its five minutes are over, whoever presents it,
/// and before that it is refused to any key but its own wallet's.
pub proof fn lemma_naunce_refusals(
    naunce: u128,
    wallet: Seq<char>,
    issued: UtcTime,
    n: NaunceAuth,
    now: UtcTime,
    signature: Seq<u8>,
    publickey: Seq<char>,
)
    requires
        naunce_issued_at(naunce, wallet, issued, n),
        0 <= issued.secs + NAUNCE_LIFETIME_SECS <= MAX_TIMESTAMP,
    ensures
        now.secs > issued.secs + NAUNCE_LIFETIME_SECS ==> signed_naunce_outcome(
            n,
            now,
            signature,
            publickey,
            naunce,
        ) == Err::<bool, PersErrorsView>(
            answer(BAD_REQUEST, "signature have been expired , please validte again"@),
        ),
        !now.later_than(n.exp) && publickey != wallet ==> signed_naunce_outcome(
            n,
            now,
            signature,
            publickey,
            naunce,
        ) == Err::<bool, PersErrorsView>(answer(UNAUTHORIZED, "wallet address mismatch"@)),
{
}

/// What the nonce store does with a nonce once a sign-in check on it is over.
#[derive(Clone, Copy, Debug, PartialEq, Eq, Structural)]
pub enum NaunceStoreAction {
    /// Remove the nonce, so that it cannot sign in again.
    Delete,
    /// Leave it; it lapses on its own when its five minutes are over.
    Keep,
}

/// A verified nonce is deleted; one that did not verify is kept.
pub open spec fn naunce_action_after(verified: bool) -> NaunceStoreAction {
    if verified {
        NaunceStoreAction::Delete
    } else {
        NaunceStoreAction::Keep
    }
}

/// What to do with the nonce after `verify_user_wallet_signature` answered
/// `Ok(verified)`.
pub fn naunce_store_action(verified: bool) -> (a: NaunceStoreAction)
    ensures
        a == naunce_action_after(verified),
{
    if verified {
        NaunceStoreAction::Delete
    } else {
        NaunceStoreAction::Keep
    }
}

/// A read of a nonce's data from the store: the data, or the store's refusal
/// as text (which is what reading a key the store does not hold gives).
pub open spec fn stored_view(stored: Result<NaunceAuth, String>) -> Result<NaunceAuth, Seq<char>> {
    match stored {
        Ok(d) => Ok(d),
        Err(t) => Err(t@),
    }
}

/// What a sign-in check answers at `now` on what the store gave: 400 with the
/// store's text when the read failed, else the answer of
/// `signed_naunce_outcome` on the nonce's data.
pub open spec fn stored_check_outcome(
    stored: Result<NaunceAuth, Seq<char>>,
    now: UtcTime,
    signature: Seq<u8>,
    publickey: Seq<char>,
    naunce: u128,
) -> Result<bool, PersErrorsView> {
    match stored {
        Err(t) => Err(answer(BAD_REQUEST, t)),
        Ok(d) => signed_naunce_outcome(d, now, signature, publickey, naunce),
    }
}

/// `verify_user_wallet_signature` on what the store gave for the nonce's key:
/// a failed read (the key is gone: the nonce was used or has lapsed) is
/// answered 400 with the store's text, without reading the clock; data that
/// were read are checked against the clock as it reads now.
pub fn verify_stored_naunce(
    stored: Result<NaunceAuth, String>,
    message_signature: &Vec<u8>,
    publickey: &str,
    naunce: u128,
) -> (res: Result<bool, PersErrors>)
    ensures
        stored matches Err(t) ==> outcome(res) == Err::<bool, PersErrorsView>(answer(BAD_REQUEST, t@)),
        stored is Ok ==> exists|now: UtcTime|
            0 <= now.secs <= MAX_TIMESTAMP && now.nanos < 1_000_000_000 && outcome(res)
                == #[trigger] stored_check_outcome(
                stored_view(stored),
                now,
                message_signature@,
                publickey@,
                naunce,
            ),
{
    let ghost read = stored_view(stored);
    match stored {
        Err(text) => Err(PersErrors::new(text, BAD_REQUEST)),
        Ok(data) => {
            let res = verify_user_wallet_signature(&data, message_signature, publickey, naunce);
            proof {
                let now = choose|now: UtcTime|
                    0 <= now.secs <= MAX_TIMESTAMP && now.nanos < 1_000_000_000 && outcome(res)
                        == #[trigger] signed_naunce_outcome(data, now, message_signature@, publickey@, naunce);
                assert(stored_check_outcome(read, now, message_signature@, publickey@, naunce) == outcome(res));
            }
            res
        },
    }
}

/// What reading a nonce's key from a store holding `store` gives: its data,
/// or, for a key the store does not hold, the store's refusal `missing`.
pub open spec fn read_naunce(store: Map<u128, NaunceAuth>, naunce: u128, missing: Seq<char>) -> Result<
    NaunceAuth,
    Seq<char>,
> {
    if store.contains_key(naunce) {
        Ok(store[naunce])
    } else {
        Err(missing)
    }
}

/// The store once it has carried out `a` on `naunce`.
pub open spec fn store_after(store: Map<u128, NaunceAuth>, naunce: u128, a: NaunceStoreAction) -> Map<
    u128,
    NaunceAuth,
> {
    match a {
        NaunceStoreAction::Delete => store.remove(naunce),
        NaunceStoreAction::Keep => store,
    }
}

/// A nonce is accepted at most once. A check that answers `Ok(true)` deletes
/// the nonce, so the store no longer holds it, and the same check repeated on
/// that store, at any time, with any signature and key, is refused with 400
/// (the store's answer to the missing key). Every other nonce stays as it was.
/// A check that answers anything else leaves the store unchanged.
pub proof fn lemma_naunce_accepted_at_most_once(
    store: Map<u128, NaunceAuth>,
    naunce: u128,
    missing: Seq<char>,
    now: UtcTime,
    signature: Seq<u8>,
    publickey: Seq<char>,
    later: UtcTime,
    signature_again: Seq<u8>,
    publickey_again: Seq<char>,
)
    ensures
        ({
            let first = stored_check_outcome(read_naunce(store, naunce, missing), now, signature, publickey, naunce);
            let after = store_after(store, naunce, naunce_action_after(first == Ok::<bool, PersErrorsView>(true)));
            &&& first == Ok::<bool, PersErrorsView>(true) ==> {
                &&& !after.contains_key(naunce)
                &&& stored_check_outcome(
                    read_naunce(after, naunce, missing),
                    later,
                    signature_again,
                    publickey_again,
                    naunce,
                ) == Err::<bool, PersErrorsView>(answer(BAD_REQUEST, missing))
                &&& forall|other: u128|
                    other != naunce ==> (#[trigger] after.contains_key(other) <==> store.contains_key(other))
                        && (store.contains_key(other) ==> after[other] == store[other])
            }
            &&& first != Ok::<bool, PersErrorsView>(true) ==> after == store
        }),
{
    let first = stored_check_outcome(read_naunce(store, naunce, missing), now, signature, publickey, naunce);
    let after = store_after(store, naunce, naunce_action_after(first == Ok::<bool, PersErrorsView>(true)));
    if first != Ok::<bool, PersErrorsView>(true) {
        assert(after =~= store);
    }
}

} // verus!
