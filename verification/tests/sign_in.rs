use ctr_checker::errors::{BAD_REQUEST, INTERNAL_SERVER_ERROR, UNAUTHORIZED};
use ctr_checker::routes::user_routes::wallet_verdict;
use ctr_checker::services::users::{
    check_signed_naunce, generate_naunce_data_for_autheticate_account, naunce_auth_at,
    naunce_auth_for_clock, naunce_store_action, NaunceStoreAction,
    naunce_not_serialised, naunce_redis_key, sign_in_message, verify_stored_naunce,
    verify_user_wallet_signature,
};
use ctr_checker::structs::NaunceAuth;
use ctr_checker::time::{UtcTime, MAX_TIMESTAMP};

const NAUNCE: u128 = 0x67e55044_10b1_426f_9247_bb680e5fe0c8;
const WALLET: &str = "9C6hybhQ6Aycep9jaUnP6uL9ZYvDjUp1aSkFWPUFJtpj";
const OTHER_WALLET: &str = "5ZgHPb447UcXavVTorgYBr8egi3sw7dXKpX4Frec9rYS";
const SIGNATURE: [u8; 64] = [
    26, 144, 201, 153, 122, 243, 103, 27, 109, 173, 48, 42, 193, 2, 67, 7, 230, 121, 107, 193, 59,
    108, 81, 159, 174, 118, 102, 99, 91, 178, 253, 77, 171, 126, 83, 94, 45, 217, 129, 31, 198, 191,
    28, 181, 99, 231, 194, 170, 185, 205, 251, 231, 205, 34, 158, 236, 220, 91, 9, 103, 162, 38, 217,
    12,
];

fn issued(wallet: &str) -> NaunceAuth {
    naunce_auth_at(NAUNCE, wallet, UtcTime { secs: 1_700_000_000, nanos: 5 })
}

#[test]
fn nonce_expires_five_minutes_after_issue() {
    let n = issued(WALLET);
    assert_eq!(n.naunce, NAUNCE);
    assert_eq!(n.user_wallet_addrss, WALLET);
    assert!(!n.used);
    assert_eq!(n.exp, UtcTime { secs: 1_700_000_300, nanos: 5 });
}

#[test]
fn nonce_key_and_message_carry_the_uuid_text() {
    assert_eq!(naunce_redis_key(NAUNCE), "naunce:$67e55044-10b1-426f-9247-bb680e5fe0c8");
    assert_eq!(
        sign_in_message(NAUNCE),
        "sign this message to authenticate with CTR Checker: 67e55044-10b1-426f-9247-bb680e5fe0c8"
    );
    assert_eq!(naunce_redis_key(0), "naunce:$00000000-0000-0000-0000-000000000000");
    assert_eq!(naunce_redis_key(u128::MAX), "naunce:$ffffffff-ffff-ffff-ffff-ffffffffffff");
}

#[test]
fn distinct_nonces_have_distinct_keys_and_messages() {
    assert_ne!(naunce_redis_key(NAUNCE), naunce_redis_key(NAUNCE + 1));
    assert_ne!(sign_in_message(1), sign_in_message(1 << 64));
}

#[test]
fn valid_signature_of_fresh_nonce_is_accepted() {
    let n = issued(WALLET);
    let now = UtcTime { secs: 1_700_000_100, nanos: 0 };
    assert_eq!(check_signed_naunce(&n, now, &SIGNATURE.to_vec(), WALLET, NAUNCE), Ok(true));
}

#[test]
fn nonce_is_still_valid_at_its_expiry_instant() {
    let n = issued(WALLET);
    assert_eq!(check_signed_naunce(&n, n.exp, &SIGNATURE.to_vec(), WALLET, NAUNCE), Ok(true));
}

#[test]
fn altered_signature_does_not_verify() {
    let n = issued(WALLET);
    let mut sig = SIGNATURE.to_vec();
    sig[10] ^= 1;
    assert_eq!(check_signed_naunce(&n, n.exp, &sig, WALLET, NAUNCE), Ok(false));
}

#[test]
fn signature_of_another_nonce_does_not_verify() {
    let n = naunce_auth_at(NAUNCE + 1, WALLET, UtcTime { secs: 10, nanos: 0 });
    let now = UtcTime { secs: 11, nanos: 0 };
    assert_eq!(check_signed_naunce(&n, now, &SIGNATURE.to_vec(), WALLET, NAUNCE + 1), Ok(false));
}

#[test]
fn signature_under_another_key_does_not_verify() {
    let n = issued(OTHER_WALLET);
    assert_eq!(check_signed_naunce(&n, n.exp, &SIGNATURE.to_vec(), OTHER_WALLET, NAUNCE), Ok(false));
}

#[test]
fn expired_nonce_is_refused() {
    let n = issued(WALLET);
    let later = UtcTime { secs: 1_700_000_300, nanos: 6 };
    let e = check_signed_naunce(&n, later, &SIGNATURE.to_vec(), WALLET, NAUNCE).unwrap_err();
    assert_eq!(e.status, BAD_REQUEST);
    assert_eq!(e.message, "signature have been expired , please validte again");
}

#[test]
fn expiry_is_checked_before_the_wallet() {
    let n = issued(WALLET);
    let later = UtcTime { secs: 1_800_000_000, nanos: 0 };
    let e = check_signed_naunce(&n, later, &SIGNATURE.to_vec(), OTHER_WALLET, NAUNCE).unwrap_err();
    assert_eq!(e.status, BAD_REQUEST);
}

#[test]
fn other_wallet_is_refused() {
    let n = issued(WALLET);
    let e = check_signed_naunce(&n, n.exp, &SIGNATURE.to_vec(), OTHER_WALLET, NAUNCE).unwrap_err();
    assert_eq!(e.status, UNAUTHORIZED);
    assert_eq!(e.message, "wallet address mismatch");
}

#[test]
fn malformed_keys_are_server_errors() {
    let bad = "0OIl";
    let n = issued(bad);
    let e = check_signed_naunce(&n, n.exp, &SIGNATURE.to_vec(), bad, NAUNCE).unwrap_err();
    assert_eq!((e.status, e.message.as_str()), (INTERNAL_SERVER_ERROR, "Invalid Base58 string"));
    let long = "1111111111111111111111111111111111111111111111111";
    let n = issued(long);
    let e = check_signed_naunce(&n, n.exp, &SIGNATURE.to_vec(), long, NAUNCE).unwrap_err();
    assert_eq!((e.status, e.message.as_str()), (INTERNAL_SERVER_ERROR, "String is the wrong size"));
}

#[test]
fn signature_must_have_64_bytes() {
    let n = issued(WALLET);
    let e = check_signed_naunce(&n, n.exp, &SIGNATURE[..63].to_vec(), WALLET, NAUNCE).unwrap_err();
    assert_eq!((e.status, e.message.as_str()), (BAD_REQUEST, "signature must be of 64 bytes array"));
    let mut long = SIGNATURE.to_vec();
    long.push(0);
    assert!(check_signed_naunce(&n, n.exp, &long, WALLET, NAUNCE).is_err());
}

#[test]
fn signature_checked_against_the_clock() {
    let mut n = issued(WALLET);
    n.exp = UtcTime { secs: 8_000_000_000_000, nanos: 0 };
    assert_eq!(verify_user_wallet_signature(&n, &SIGNATURE.to_vec(), WALLET, NAUNCE), Ok(true));
    n.exp = UtcTime { secs: 1, nanos: 0 };
    assert_eq!(verify_user_wallet_signature(&n, &SIGNATURE.to_vec(), WALLET, NAUNCE).unwrap_err().status, 400);
}

#[test]
fn generated_nonce_is_random_v4_and_lasts_five_minutes() {
    let before = chrono::Utc::now().timestamp();
    let n = generate_naunce_data_for_autheticate_account("w").unwrap();
    let after = chrono::Utc::now().timestamp();
    assert_eq!((n.naunce >> 76) & 0xf, 4);
    assert_eq!((n.naunce >> 62) & 0x3, 2);
    assert_eq!(n.user_wallet_addrss, "w");
    assert!(!n.used);
    assert!(before + 300 <= n.exp.secs && n.exp.secs <= after + 300);
    let m = generate_naunce_data_for_autheticate_account("w").unwrap();
    assert_ne!(n.naunce, m.naunce);
}

#[test]
fn unverified_wallet_ends_sign_in() {
    assert_eq!(wallet_verdict(true), Ok(()));
    let e = wallet_verdict(false).unwrap_err();
    assert_eq!((e.status, e.message.as_str()), (400, "wallet cannot be verified"));
}

#[test]
fn unserialisable_nonce_message() {
    let e = naunce_not_serialised("oops");
    assert_eq!((e.status, e.message.as_str()), (500, "error while converting naunce to json => $oops"));
}

#[test]
fn nonce_for_clock_refuses_only_the_last_five_minutes_of_the_range() {
    let last = UtcTime { secs: MAX_TIMESTAMP - 300, nanos: 9 };
    let n = naunce_auth_for_clock(NAUNCE, WALLET, last).unwrap();
    assert_eq!(n.naunce, NAUNCE);
    assert_eq!(n.user_wallet_addrss, WALLET);
    assert!(!n.used);
    assert_eq!(n.exp, UtcTime { secs: MAX_TIMESTAMP, nanos: 9 });
    assert!(naunce_auth_for_clock(NAUNCE, WALLET, UtcTime { secs: MAX_TIMESTAMP - 299, nanos: 0 }).is_none());
    assert!(naunce_auth_for_clock(NAUNCE, WALLET, UtcTime { secs: MAX_TIMESTAMP, nanos: 0 }).is_none());
    let n = naunce_auth_for_clock(NAUNCE, WALLET, UtcTime { secs: 1_700_000_000, nanos: 5 }).unwrap();
    assert_eq!(n, issued(WALLET));
}

#[test]
fn verified_nonce_is_deleted_and_refused_one_is_kept() {
    assert_eq!(naunce_store_action(true), NaunceStoreAction::Delete);
    assert_eq!(naunce_store_action(false), NaunceStoreAction::Keep);
}

#[test]
fn used_nonce_is_refused_with_the_stores_text() {
    let mut n = issued(WALLET);
    n.exp = UtcTime { secs: 8_000_000_000_000, nanos: 0 };
    let first = verify_stored_naunce(Ok(n), &SIGNATURE.to_vec(), WALLET, NAUNCE);
    assert_eq!(first, Ok(true));
    assert_eq!(naunce_store_action(true), NaunceStoreAction::Delete);
    let again = verify_stored_naunce(Err("key is gone".to_string()), &SIGNATURE.to_vec(), WALLET, NAUNCE)
        .unwrap_err();
    assert_eq!((again.status, again.message.as_str()), (400, "key is gone"));
}
