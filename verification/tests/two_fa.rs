use inheritx_backend::api_error::ApiError;
use inheritx_backend::identity::IdentityDirectory;
use inheritx_backend::otp::{
    format_otp, is_open, is_valid_otp_format, judge_otp, step_otp, OtpChallenge,
    OtpChallengeStore, OtpOutcome,
};
use inheritx_backend::two_fa::service::TwoFAService;
use inheritx_backend::two_fa::{
    cleanup_expired_otps, generate_otp, hash_otp, store_otp, verification_result_of, verify_otp,
    verify_otp_from_db,
};

fn cheap_hash(secret: &str) -> String {
    bcrypt::hash(secret, 4).unwrap()
}

#[test]
fn test_otp_validation() {
    assert!("123456".len() == 6);
    assert!("123456".chars().all(|c| c.is_ascii_digit()));
    assert!(!"12345".chars().all(|c| c.is_ascii_digit()) || "12345".len() != 6);
    assert!(!"abc123".chars().all(|c| c.is_ascii_digit()));
    assert!(is_valid_otp_format("123456"));
    assert!(!is_valid_otp_format("12345"));
    assert!(!is_valid_otp_format("abc123"));
}

#[test]
fn test_generate_otp() {
    let otp = TwoFAService::generate_otp();
    assert_eq!(otp.len(), 6);
    assert!(otp.chars().all(|c| c.is_ascii_digit()));
}

#[test]
fn tests_test_hash_and_verify_otp() {
    let otp = "123456";
    let hash = TwoFAService::hash_otp(otp).expect("Failed to hash OTP");

    // Verify correct OTP
    let is_valid = TwoFAService::verify_otp(otp, &hash).expect("Failed to verify OTP");
    assert!(is_valid);

    // Verify incorrect OTP
    let is_invalid = TwoFAService::verify_otp("654321", &hash).expect("Failed to verify OTP");
    assert!(!is_invalid);
}

#[test]
fn test_otp_format() {
    for _ in 0..100 {
        let otp = TwoFAService::generate_otp();
        let num: u32 = otp.parse().expect("OTP should be a valid number");
        assert!(num < 1_000_000, "OTP should be less than 1,000,000");
    }
}

#[test]
fn test_generate_otp_format() {
    let otp = generate_otp();
    assert_eq!(otp.len(), 6);
    assert!(otp.chars().all(|c| c.is_ascii_digit()));

    // Ensure it's in valid range
    let otp_num: u32 = otp.parse().unwrap();
    assert!(otp_num >= 100000 && otp_num <= 999999);
}

#[test]
fn two_fa_integration_test_test_hash_and_verify_otp() {
    let otp = "123456";
    let hash = hash_otp(otp).unwrap();

    // Verify correct OTP
    assert!(verify_otp(otp, &hash).unwrap());

    // Verify incorrect OTP
    assert!(!verify_otp("654321", &hash).unwrap());
}

#[test]
fn test_hash_otp_different_each_time() {
    let otp = "123456";
    let hash1 = hash_otp(otp).unwrap();
    let hash2 = hash_otp(otp).unwrap();

    // Hashes should be different due to salt
    assert_ne!(hash1, hash2);

    // But both should verify correctly
    assert!(verify_otp(otp, &hash1).unwrap());
    assert!(verify_otp(otp, &hash2).unwrap());
}

#[test]
fn generated_codes_stay_in_the_six_digit_range() {
    for _ in 0..500 {
        let otp = generate_otp();
        assert!(is_valid_otp_format(&otp));
        let n: u32 = otp.parse().unwrap();
        assert!((100000..=999999).contains(&n));
    }
}

#[test]
fn format_otp_writes_six_digits() {
    assert_eq!(format_otp(0), "000000");
    assert_eq!(format_otp(42), "000042");
    assert_eq!(format_otp(100000), "100000");
    assert_eq!(format_otp(123456), "123456");
    assert_eq!(format_otp(907050), "907050");
    assert_eq!(format_otp(999999), "999999");
}

#[test]
fn otp_format_is_six_ascii_digits() {
    assert!(is_valid_otp_format("000000"));
    assert!(is_valid_otp_format("999999"));
    assert!(!is_valid_otp_format(""));
    assert!(!is_valid_otp_format("1234567"));
    assert!(!is_valid_otp_format("12345a"));
    assert!(!is_valid_otp_format("12 456"));
    assert!(!is_valid_otp_format("-12345"));
    // six characters, but not ASCII digits
    assert!(!is_valid_otp_format("１２３４５６"));
    // six bytes, fewer characters
    assert!(!is_valid_otp_format("1234é"));
}

#[test]
fn verify_otp_reports_a_malformed_hash_as_internal() {
    let err = verify_otp("123456", "not-a-hash").unwrap_err();
    assert_eq!(err, ApiError::Internal("Failed to verify secret".to_string()));
    assert_eq!(err.status_code(), 500);
}

#[test]
fn three_wrong_codes_exhaust_the_challenge() {
    let mut store = OtpChallengeStore::new();
    let real = "482913";
    let expires = store.issue_with(1, cheap_hash(real), 1_000);
    assert_eq!(expires, 1_300);
    assert_eq!(store.get(1).unwrap().attempts, 0);

    assert_eq!(store.verify_at(1, "000000", 1_010), Ok(OtpOutcome::Invalid));
    assert_eq!(store.get(1).unwrap().attempts, 1);
    assert_eq!(store.verify_at(1, "000000", 1_020), Ok(OtpOutcome::Invalid));
    assert_eq!(store.get(1).unwrap().attempts, 2);
    assert_eq!(store.verify_at(1, "000000", 1_030), Ok(OtpOutcome::Invalid));
    assert_eq!(store.get(1).unwrap().attempts, 3);

    // the real code, in time, on the fourth try
    assert_eq!(store.verify_at(1, real, 1_040), Ok(OtpOutcome::AttemptsExhausted));
    assert!(store.get(1).is_none());
    assert_eq!(store.verify_at(1, real, 1_050), Ok(OtpOutcome::NoChallenge));
}

#[test]
fn two_wrong_codes_leave_the_right_code_valid() {
    let mut store = OtpChallengeStore::new();
    store.issue_with(9, cheap_hash("555111"), 0);
    assert_eq!(store.verify_at(9, "555112", 1), Ok(OtpOutcome::Invalid));
    assert_eq!(store.verify_at(9, "555113", 2), Ok(OtpOutcome::Invalid));
    assert_eq!(store.verify_at(9, "555111", 3), Ok(OtpOutcome::Verified));
    assert!(store.get(9).is_none());
}

#[test]
fn a_code_after_its_expiry_is_expired_even_if_right() {
    let mut store = OtpChallengeStore::new();
    store.issue_with(2, cheap_hash("135790"), 1_000);
    // the last valid instant is the expiry itself
    assert_eq!(store.verify_at(2, "135790", 1_301), Ok(OtpOutcome::Expired));
    assert!(store.get(2).is_none());

    store.issue_with(2, cheap_hash("135790"), 1_000);
    assert_eq!(store.verify_at(2, "135790", 1_300), Ok(OtpOutcome::Verified));
}

#[test]
fn exhaustion_is_judged_before_expiry() {
    let mut store = OtpChallengeStore::new();
    store.issue_with(3, cheap_hash("111111"), 0);
    for t in 1..=3 {
        assert_eq!(store.verify_at(3, "222222", t), Ok(OtpOutcome::Invalid));
    }
    assert_eq!(store.verify_at(3, "111111", 10_000), Ok(OtpOutcome::AttemptsExhausted));
}

#[test]
fn a_verified_code_cannot_be_used_again() {
    let mut store = OtpChallengeStore::new();
    store.issue_with(4, cheap_hash("246810"), 50);
    assert_eq!(store.verify_at(4, "246810", 60), Ok(OtpOutcome::Verified));
    assert_eq!(store.verify_at(4, "246810", 61), Ok(OtpOutcome::NoChallenge));
}

#[test]
fn a_new_code_replaces_the_old_and_resets_the_attempts() {
    let mut store = OtpChallengeStore::new();
    store.issue_with(5, cheap_hash("111111"), 0);
    assert_eq!(store.verify_at(5, "999999", 1), Ok(OtpOutcome::Invalid));
    assert_eq!(store.verify_at(5, "999999", 2), Ok(OtpOutcome::Invalid));
    store.issue_with(5, cheap_hash("222222"), 10);
    let row = store.get(5).unwrap();
    assert_eq!(row.attempts, 0);
    assert_eq!(row.created_at, 10);
    assert_eq!(row.expires_at, 310);
    assert_eq!(store.verify_at(5, "111111", 11), Ok(OtpOutcome::Invalid));
    assert_eq!(store.verify_at(5, "222222", 12), Ok(OtpOutcome::Verified));
}

#[test]
fn a_malformed_stored_hash_fails_closed_and_changes_nothing() {
    let mut store = OtpChallengeStore::new();
    store.issue_with(6, "garbage".to_string(), 0);
    let err = store.verify_at(6, "123456", 1).unwrap_err();
    assert_eq!(err, ApiError::Internal("Failed to verify secret".to_string()));
    let row = store.get(6).unwrap();
    assert_eq!(row.attempts, 0);
    assert_eq!(row.otp_hash, "garbage");
}

#[test]
fn challenges_of_different_identities_do_not_interfere() {
    let mut store = OtpChallengeStore::new();
    store.issue_with(1, cheap_hash("111111"), 0);
    store.issue_with(2, cheap_hash("222222"), 0);
    assert_eq!(store.verify_at(1, "222222", 1), Ok(OtpOutcome::Invalid));
    assert_eq!(store.get(2).unwrap().attempts, 0);
    assert_eq!(store.verify_at(2, "222222", 1), Ok(OtpOutcome::Verified));
    assert_eq!(store.get(1).unwrap().attempts, 1);
}

#[test]
fn judge_otp_gives_the_verdict_and_the_next_row() {
    let row = OtpChallenge {
        identity_id: 8,
        otp_hash: cheap_hash("121212"),
        expires_at: 100,
        attempts: 2,
        created_at: 0,
    };
    let (verdict, next) = judge_otp(Some(row.clone()), "000000", 100);
    assert_eq!(verdict, Ok(OtpOutcome::Invalid));
    assert_eq!(next, Some(OtpChallenge { attempts: 3, ..row.clone() }));

    let (verdict, next) = judge_otp(next, "121212", 100);
    assert_eq!(verdict, Ok(OtpOutcome::AttemptsExhausted));
    assert_eq!(next, None);

    let (verdict, next) = judge_otp(Some(row.clone()), "121212", 101);
    assert_eq!(verdict, Ok(OtpOutcome::Expired));
    assert_eq!(next, None);

    let (verdict, next) = judge_otp(Some(row), "121212", 99);
    assert_eq!(verdict, Ok(OtpOutcome::Verified));
    assert_eq!(next, None);

    let (verdict, next) = judge_otp(None, "121212", 0);
    assert_eq!(verdict, Ok(OtpOutcome::NoChallenge));
    assert_eq!(next, None);
}

#[test]
fn cleanup_deletes_exactly_the_stale_challenges() {
    let mut store = OtpChallengeStore::new();
    store.issue_with(1, "a".to_string(), 0); // expires 300
    store.issue_with(2, "b".to_string(), 100); // expires 400
    store.issue_with(3, "c".to_string(), 200); // expires 500
    store.issue_with(4, "d".to_string(), 100); // expires 400

    assert_eq!(store.cleanup_expired_at(300), 0);
    assert_eq!(store.cleanup_expired_at(401), 3);
    assert!(store.get(1).is_none());
    assert!(store.get(2).is_none());
    assert!(store.get(4).is_none());
    assert_eq!(store.get(3).unwrap().otp_hash, "c");
    // idempotent
    assert_eq!(store.cleanup_expired_at(401), 0);
    assert_eq!(store.cleanup_expired_at(501), 1);
    assert_eq!(store.cleanup_expired_at(u64::MAX), 0);
}

#[test]
fn outcome_messages_name_the_reason() {
    assert_eq!(OtpOutcome::Verified.message(), "OTP verified successfully");
    assert_eq!(OtpOutcome::Invalid.message(), "Invalid OTP");
    assert_eq!(OtpOutcome::Expired.message(), "OTP has expired");
    assert_eq!(
        OtpOutcome::AttemptsExhausted.message(),
        "Too many verification attempts. Please request a new OTP."
    );
    assert_eq!(OtpOutcome::NoChallenge.message(), "No pending OTP found");
}

#[test]
fn verdicts_collapse_to_one_status_at_the_boundary() {
    assert_eq!(verification_result_of(Ok(OtpOutcome::Verified)), Ok(true));
    assert_eq!(verification_result_of(Ok(OtpOutcome::Invalid)), Ok(false));
    assert_eq!(verification_result_of(Ok(OtpOutcome::Expired)), Err(ApiError::Unauthorized));
    assert_eq!(
        verification_result_of(Ok(OtpOutcome::AttemptsExhausted)),
        Err(ApiError::Unauthorized)
    );
    assert_eq!(verification_result_of(Ok(OtpOutcome::NoChallenge)), Err(ApiError::Unauthorized));
    assert_eq!(
        verification_result_of(Err(ApiError::Internal("x".to_string()))),
        Err(ApiError::Internal("x".to_string()))
    );
}

#[test]
fn store_and_verify_through_the_clock() {
    let mut store = OtpChallengeStore::new();
    assert_eq!(verify_otp_from_db(&mut store, 11, "123456"), Err(ApiError::Unauthorized));
    store_otp(&mut store, 11, "123456").unwrap();
    let row = store.get(11).unwrap().clone();
    assert_eq!(row.attempts, 0);
    assert_eq!(row.expires_at, row.created_at + 300);
    assert_ne!(row.otp_hash, "123456");
    assert_eq!(verify_otp_from_db(&mut store, 11, "654321"), Ok(false));
    assert_eq!(store.get(11).unwrap().attempts, 1);
    assert_eq!(verify_otp_from_db(&mut store, 11, "123456"), Ok(true));
    assert!(store.get(11).is_none());
    assert_eq!(cleanup_expired_otps(&mut store), Ok(0));
}

#[test]
fn service_rejections_are_all_unauthorized() {
    let mut store = OtpChallengeStore::new();
    assert_eq!(
        TwoFAService::verify_otp_from_db(&mut store, 1, "123456"),
        Err(ApiError::Unauthorized)
    );
    store.issue_with(1, cheap_hash("123456"), inheritx_backend::clock::now());
    assert_eq!(
        TwoFAService::verify_otp_from_db(&mut store, 1, "000000"),
        Err(ApiError::Unauthorized)
    );
    assert_eq!(TwoFAService::verify_otp_from_db(&mut store, 1, "123456"), Ok(true));
    assert_eq!(TwoFAService::cleanup_expired_otps(&mut store), Ok(0));
}

#[test]
fn get_user_email_finds_the_contact() {
    let mut users = IdentityDirectory::new();
    users.register(77, "a@example.com", "hash", 0);
    assert_eq!(TwoFAService::get_user_email(&users, 77), Ok("a@example.com".to_string()));
    assert_eq!(
        TwoFAService::get_user_email(&users, 78),
        Err(ApiError::NotFound("User not found".to_string()))
    );
}

#[test]
fn persisted_rows_are_put_back_as_they_were() {
    let mut store = OtpChallengeStore::new();
    let row = OtpChallenge {
        identity_id: 21,
        otp_hash: cheap_hash("314159"),
        expires_at: 900,
        attempts: 2,
        created_at: 600,
    };
    assert!(store.restore(row.clone()));
    assert_eq!(store.get(21), Some(&row));
    assert_eq!(store.verify_at(21, "000000", 700), Ok(OtpOutcome::Invalid));
    assert_eq!(store.verify_at(21, "314159", 701), Ok(OtpOutcome::AttemptsExhausted));
    // a row that claims more attempts than are allowed is refused
    assert!(!store.restore(OtpChallenge { attempts: 4, ..row.clone() }));
    assert!(store.get(21).is_none());
    assert!(store.restore(OtpChallenge { attempts: 3, ..row }));
    assert_eq!(store.verify_at(21, "314159", 0), Ok(OtpOutcome::AttemptsExhausted));
}

#[test]
fn a_step_follows_the_hashers_word() {
    let row = |attempts: u32| OtpChallenge {
        identity_id: 1,
        otp_hash: "stored".to_string(),
        expires_at: 100,
        attempts,
        created_at: 0,
    };
    // the comparison decides while the challenge is open
    assert_eq!(step_otp(Some(row(0)), Some(true), 100), (Ok(OtpOutcome::Verified), None));
    assert_eq!(
        step_otp(Some(row(0)), Some(false), 100),
        (Ok(OtpOutcome::Invalid), Some(row(1)))
    );
    assert_eq!(
        step_otp(Some(row(2)), Some(false), 0),
        (Ok(OtpOutcome::Invalid), Some(row(3)))
    );
    assert_eq!(
        step_otp(Some(row(1)), None, 0),
        (Err(ApiError::Internal("Failed to verify secret".to_string())), Some(row(1)))
    );
    // a closed challenge is deleted whatever the comparison says
    for matched in [Some(true), Some(false), None] {
        assert_eq!(step_otp(Some(row(3)), matched, 0), (Ok(OtpOutcome::AttemptsExhausted), None));
        assert_eq!(step_otp(Some(row(0)), matched, 101), (Ok(OtpOutcome::Expired), None));
        assert_eq!(step_otp(Some(row(3)), matched, 101), (Ok(OtpOutcome::AttemptsExhausted), None));
        assert_eq!(step_otp(None, matched, 0), (Ok(OtpOutcome::NoChallenge), None));
    }
    assert!(is_open(&row(2), 100));
    assert!(!is_open(&row(3), 100));
    assert!(!is_open(&row(0), 101));
}

#[test]
fn every_rejection_has_one_status_and_its_own_text() {
    assert_eq!(OtpOutcome::Verified.status_code(), 200);
    let rejections = [
        OtpOutcome::Invalid,
        OtpOutcome::Expired,
        OtpOutcome::AttemptsExhausted,
        OtpOutcome::NoChallenge,
    ];
    for (i, outcome) in rejections.iter().enumerate() {
        assert_eq!(outcome.status_code(), 401);
        for other in &rejections[i + 1..] {
            assert_ne!(outcome.message(), other.message());
        }
    }
}

#[test]
fn the_stored_hash_is_never_the_code() {
    let mut store = OtpChallengeStore::new();
    let (code, expires_at) = store.issue(31).unwrap();
    let row = store.get(31).unwrap().clone();
    assert_eq!(row.otp_hash.len(), 60);
    assert_ne!(row.otp_hash, code);
    assert!(!row.otp_hash.contains(&code));
    assert_eq!(row.attempts, 0);
    assert_eq!(row.identity_id, 31);
    assert_eq!(row.expires_at, expires_at);
    assert_eq!(row.expires_at, row.created_at + 300);
    let n: u32 = code.parse().unwrap();
    assert!((100000..=999999).contains(&n));
    assert_eq!(hash_otp("123456").unwrap().len(), 60);
    assert_eq!(hash_otp("").unwrap().len(), 60);
    assert_eq!(hash_otp(&"x".repeat(100)).unwrap().len(), 60);
}
