use ctr_checker::db::{DbFailure, DbFailureKind};
use ctr_checker::errors::{CONFLICT, FAILED_DEPENDENCY, FORBIDDEN, INTERNAL_SERVER_ERROR};
use ctr_checker::models::user::{UserStruct, UserTypeEnum};
use ctr_checker::models::worker_work_details::PaymentStatus;
use ctr_checker::routes::user_routes::s3_image_data;
use ctr_checker::services::users::{
    bucket_key_missing, bucket_missing, check_upload_size, check_user, create_new_user_error,
    get_or_create_user, initial_work_details, new_upload_target, new_user_record,
    presigning_config_invalid, presigning_failed, UserLookupStep, MAX_UPLOAD_BYTES,
};

fn user(role: UserTypeEnum) -> UserStruct {
    UserStruct { id: 3, user_wallet_address: "addr".to_string(), userr_type: role }
}

fn failure(kind: DbFailureKind, text: &str) -> DbFailure {
    DbFailure { kind, text: text.to_string() }
}

#[test]
fn found_user_is_existing() {
    let u = user(UserTypeEnum::CREATOR);
    assert_eq!(check_user(Ok(u.clone()), "addr"), Ok((true, Some(u))));
}

#[test]
fn unknown_user_is_not_an_error() {
    let r = check_user(Err(failure(DbFailureKind::NotFound, "Record not found")), "addr");
    assert_eq!(r, Ok((false, None)));
}

#[test]
fn failed_lookup_is_a_server_error() {
    let e = check_user(Err(failure(DbFailureKind::Other, "connection reset")), "addr").unwrap_err();
    assert_eq!(e.status, INTERNAL_SERVER_ERROR);
    assert_eq!(e.message, "error fetching user addr: connection reset");
}

#[test]
fn known_user_is_used_and_unknown_is_registered() {
    let u = user(UserTypeEnum::WORKER);
    match get_or_create_user(true, Some(u.clone())) {
        UserLookupStep::Done(r) => assert_eq!(r, Ok(u.clone())),
        UserLookupStep::CreateUser => panic!("existing user must not be created"),
    }
    assert!(matches!(get_or_create_user(false, None), UserLookupStep::CreateUser));
    assert!(matches!(get_or_create_user(false, Some(u)), UserLookupStep::CreateUser));
    match get_or_create_user(true, None) {
        UserLookupStep::Done(Err(e)) => {
            assert_eq!(e.status, 500);
            assert_eq!(e.message, "user is neitng present nor we are able to create it ");
        },
        _ => panic!("expected an error"),
    }
}

#[test]
fn new_user_row_has_wallet_and_role() {
    let n = new_user_record("w1", UserTypeEnum::WORKER);
    assert_eq!(n.user_wallet_address, "w1");
    assert_eq!(n.userr_type, UserTypeEnum::WORKER);
}

#[test]
fn only_workers_get_work_details() {
    assert_eq!(initial_work_details(&user(UserTypeEnum::CREATOR), "addr"), None);
    let d = initial_work_details(&user(UserTypeEnum::WORKER), "addr").unwrap();
    assert_eq!(d.worker_wallet_address, "addr");
    assert_eq!(d.total_lifetime_tasks, 0);
    assert_eq!(d.current_no_of_tasks_for_payout, 0);
    assert_eq!(d.payout_status, PaymentStatus::NOT_ELIGIBLE);
    assert_eq!(d.txn_hash_of_withdrawal, None);
}

#[test]
fn taken_wallet_is_a_conflict() {
    let f = failure(DbFailureKind::UniqueViolation, "duplicate key");
    let e = create_new_user_error(&f, "w9", UserTypeEnum::WORKER);
    assert_eq!(e.status, CONFLICT);
    assert_eq!(e.message, "wallet address w9 already exists as a WORKER");
    let e = create_new_user_error(&f, "w9", UserTypeEnum::CREATOR);
    assert_eq!(e.message, "wallet address w9 already exists as a CREATOR");
}

#[test]
fn other_registration_failures_are_server_errors() {
    let e = create_new_user_error(&failure(DbFailureKind::Other, "boom"), "w9", UserTypeEnum::WORKER);
    assert_eq!(e.status, INTERNAL_SERVER_ERROR);
    assert_eq!(e.message, "new user insertion failed => boom");
    let e = create_new_user_error(&failure(DbFailureKind::NotFound, "nf"), "w9", UserTypeEnum::CREATOR);
    assert_eq!(e.message, "new user insertion failed => nf");
}

#[test]
fn uploads_up_to_two_mebibytes_are_allowed() {
    assert_eq!(MAX_UPLOAD_BYTES, 1024 * 1024 * 2);
    assert_eq!(check_upload_size(0), Ok(()));
    assert_eq!(check_upload_size(-5), Ok(()));
    assert_eq!(check_upload_size(2_097_152), Ok(()));
    let e = check_upload_size(2_097_153).unwrap_err();
    assert_eq!(e.status, FORBIDDEN);
    assert_eq!(e.message, "file size cannot be greater that 2 mb ");
    assert!(check_upload_size(i64::MAX).is_err());
}

#[test]
fn upload_target_is_under_the_users_folder() {
    let t = new_upload_target("ctr_images", "user-1", 1_500_000);
    assert_eq!(t.content_length, 1_500_000);
    assert_eq!(t.content_type, "image/*");
    assert_eq!(t.img_id.len(), 36);
    assert_eq!(t.img_id.as_bytes()[14], b'4');
    assert!(matches!(t.img_id.as_bytes()[19], b'8' | b'9' | b'a' | b'b'));
    assert_eq!(t.img_id.as_bytes()[8], b'-');
    assert_eq!(t.object_key, format!("ctr_images/user-1/{}", t.img_id));
    let again = new_upload_target("ctr_images", "user-1", MAX_UPLOAD_BYTES);
    assert_eq!(again.content_length, MAX_UPLOAD_BYTES);
    assert_ne!(t.img_id, again.img_id);
}

#[test]
fn upload_answer_names_image_url_and_user() {
    let d = s3_image_data(("img".to_string(), "https://u".to_string()), 0xabc);
    assert_eq!(d.url, "https://u");
    assert_eq!(d.img_id, "img");
    assert_eq!(d.user_id, "00000000-0000-0000-0000-000000000abc");
}

#[test]
fn upload_configuration_errors() {
    let e = bucket_missing("NotPresent");
    assert_eq!((e.status, e.message.as_str()), (500, "getting error while fetching bucket name from env NotPresent"));
    let e = bucket_key_missing("x");
    assert_eq!(e.message, "getting error while fetching bucket name key from env x");
    let e = presigning_failed("y");
    assert_eq!((e.status, e.message.as_str()), (500, "presigned_error y"));
    let e = presigning_config_invalid("z");
    assert_eq!((e.status, e.message.as_str()), (FAILED_DEPENDENCY, "z"));
}
