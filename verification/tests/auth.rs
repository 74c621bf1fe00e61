use inheritx_backend::api_error::ApiError;
use inheritx_backend::auth::{
    generate_nonce, get_nonce, judge_wallet_login, login_admin, login_admin_at, login_user,
    login_user_at,
    otp_from_bytes, send_2fa, send_2fa_with, verify_2fa, verify_2fa_internal,
    verify_2fa_internal_at, verify_admin_exists, verify_user_exists, wallet_login, web3_login,
    web3_login_at, LoginRequest, LoginResponse, NonceRequest, Send2faRequest, TwoFaResponse,
    Verify2faRequest, Web3LoginRequest,
};
use inheritx_backend::identity::{judge_admin_password, judge_password, Admin, Identity};
use inheritx_backend::nonce::WalletChallenge;
use inheritx_backend::state::AppState;
use inheritx_backend::token::{AdminClaims, UserClaims};
use ring::signature::KeyPair;

fn key_pair(seed: u8) -> ring::signature::Ed25519KeyPair {
    ring::signature::Ed25519KeyPair::from_seed_unchecked(&[seed; 32]).unwrap()
}

fn stellar_address(pair: &ring::signature::Ed25519KeyPair) -> String {
    let mut key = [0u8; 32];
    key.copy_from_slice(pair.public_key().as_ref());
    stellar_strkey::Strkey::PublicKeyEd25519(stellar_strkey::ed25519::PublicKey(key)).to_string()
}

fn sign(pair: &ring::signature::Ed25519KeyPair, nonce: &str) -> String {
    hex::encode(pair.sign(nonce.as_bytes()).as_ref())
}

fn cheap_hash(secret: &str) -> String {
    bcrypt::hash(secret, 4).unwrap()
}

#[test]
fn wallet_login_succeeds_once() {
    let mut state = AppState::new("test-jwt-secret");
    let pair = key_pair(11);
    let address = stellar_address(&pair);

    let nonce = get_nonce(&mut state, &NonceRequest { wallet_address: address.clone() })
        .unwrap()
        .nonce;
    let payload = Web3LoginRequest { wallet_address: address.clone(), signature: sign(&pair, &nonce) };

    let token = web3_login(&mut state, &payload).unwrap().token;

    // the token names the identity that the login created
    let claims = state.issuer.decode_and_validate(&token).unwrap();
    let identity = state.users.find_by_address(&address).unwrap().clone();
    assert_eq!(claims.user_id, identity.id);
    assert_eq!(claims.email, format!("{}@inheritx.auth", address));
    assert_eq!(identity.email, claims.email);
    assert_eq!(identity.password_hash, "web3-auth-none");
    assert_eq!(identity.wallet_address, Some(address.clone()));
    assert_eq!(state.users.len(), 1);

    // the nonce is spent: the same signature is refused
    assert!(state.nonces.get(&address).is_none());
    assert_eq!(web3_login(&mut state, &payload), Err(ApiError::Unauthorized));
    assert_eq!(wallet_login(&mut state, &payload), Err(ApiError::Unauthorized));
    assert_eq!(state.users.len(), 1);
}

#[test]
fn wallet_login_is_exact_at_a_given_instant() {
    let mut state = AppState::new("k");
    let pair = key_pair(12);
    let address = hex::encode(pair.public_key().as_ref());
    state.nonces.issue_at(&address, "the-nonce".to_string(), 1_000);
    let payload =
        Web3LoginRequest { wallet_address: address.clone(), signature: sign(&pair, "the-nonce") };

    let response = web3_login_at(&mut state, &payload, 1_300, 0xabc).unwrap();
    let expected = state
        .issuer
        .issue_at(
            &UserClaims { user_id: 0xabc, email: format!("{}@inheritx.auth", address), exp: 0 },
            86_400,
            1_300,
        )
        .unwrap();
    assert_eq!(response, LoginResponse { token: expected });
    assert_eq!(
        state.issuer.decode_and_validate_at(&response.token, 1_300 + 86_399).unwrap().exp,
        1_300 + 86_400
    );
    assert!(state.nonces.get(&address).is_none());
}

#[test]
fn a_second_login_keeps_the_identity() {
    let mut state = AppState::new("k");
    let pair = key_pair(13);
    let address = stellar_address(&pair);
    state.nonces.issue_at(&address, "n1".to_string(), 0);
    let first = Web3LoginRequest { wallet_address: address.clone(), signature: sign(&pair, "n1") };
    web3_login_at(&mut state, &first, 1, 100).unwrap();

    state.nonces.issue_at(&address, "n2".to_string(), 10);
    let second = Web3LoginRequest { wallet_address: address.clone(), signature: sign(&pair, "n2") };
    let token = web3_login_at(&mut state, &second, 11, 200).unwrap().token;
    assert_eq!(state.issuer.decode_and_validate_at(&token, 12).unwrap().user_id, 100);
    assert_eq!(state.users.len(), 1);
}

#[test]
fn wallet_login_failures_by_cause() {
    let mut state = AppState::new("k");
    let pair = key_pair(14);
    let other = key_pair(15);
    let address = stellar_address(&pair);
    let good = |nonce: &str| Web3LoginRequest {
        wallet_address: address.clone(),
        signature: sign(&pair, nonce),
    };

    // no nonce was requested
    assert_eq!(web3_login_at(&mut state, &good("n"), 0, 1), Err(ApiError::Unauthorized));

    // a malformed address is the caller's mistake, whatever else is wrong
    let malformed = Web3LoginRequest { wallet_address: "GADDR1".to_string(), signature: "zz".to_string() };
    assert_eq!(
        web3_login_at(&mut state, &malformed, 0, 1),
        Err(ApiError::BadRequest("Invalid wallet address format".to_string()))
    );

    state.nonces.issue_at(&address, "n".to_string(), 0);

    // a malformed signature
    let bad = Web3LoginRequest { wallet_address: address.clone(), signature: "zz".to_string() };
    assert_eq!(
        web3_login_at(&mut state, &bad, 1, 1),
        Err(ApiError::BadRequest("Invalid signature format".to_string()))
    );
    // a signature by another key
    let forged = Web3LoginRequest { wallet_address: address.clone(), signature: sign(&other, "n") };
    assert_eq!(web3_login_at(&mut state, &forged, 1, 1), Err(ApiError::Unauthorized));
    // a signature of another nonce
    assert_eq!(web3_login_at(&mut state, &good("m"), 1, 1), Err(ApiError::Unauthorized));
    // none of these spent the nonce or made an identity
    assert_eq!(state.nonces.get(&address).unwrap().nonce, "n");
    assert_eq!(state.users.len(), 0);

    // too late: the nonce is purged
    assert_eq!(web3_login_at(&mut state, &good("n"), 301, 1), Err(ApiError::Unauthorized));
    assert!(state.nonces.get(&address).is_none());
    assert_eq!(state.users.len(), 0);
}

#[test]
fn a_new_nonce_invalidates_a_signature_of_the_old() {
    let mut state = AppState::new("k");
    let pair = key_pair(16);
    let address = stellar_address(&pair);
    let first = generate_nonce(&mut state, address.clone()).unwrap().nonce;
    let second = generate_nonce(&mut state, address.clone()).unwrap().nonce;
    assert_ne!(first, second);
    let stale = Web3LoginRequest { wallet_address: address.clone(), signature: sign(&pair, &first) };
    assert_eq!(web3_login(&mut state, &stale), Err(ApiError::Unauthorized));
    let fresh = Web3LoginRequest { wallet_address: address.clone(), signature: sign(&pair, &second) };
    assert!(web3_login(&mut state, &fresh).is_ok());
}

#[test]
fn an_unsignable_token_leaves_the_nonce_unspent() {
    let mut state = AppState::new("k");
    let pair = key_pair(17);
    let address = stellar_address(&pair);
    state.nonces.issue_at(&address, "n".to_string(), u64::MAX - 400);
    let payload = Web3LoginRequest { wallet_address: address.clone(), signature: sign(&pair, "n") };
    assert_eq!(
        web3_login_at(&mut state, &payload, u64::MAX - 300, 5),
        Err(ApiError::Internal("Token expiry out of range".to_string()))
    );
    assert_eq!(state.nonces.get(&address).unwrap().nonce, "n");
}

#[test]
fn password_login_issues_a_token() {
    let mut state = AppState::new("k");
    state.users.register(5, "u@example.com", &cheap_hash("hunter2"), 0);
    let payload = LoginRequest { email: "u@example.com".to_string(), password: "hunter2".to_string() };
    let token = login_user_at(&state, &payload, 1_000).unwrap().token;
    assert_eq!(
        state.issuer.decode_and_validate_at(&token, 1_001),
        Ok(UserClaims { user_id: 5, email: "u@example.com".to_string(), exp: 87_400 })
    );
    assert!(login_user(&state, &payload).is_ok());
}

#[test]
fn password_login_refuses_alike() {
    let mut state = AppState::new("k");
    state.users.register(5, "u@example.com", &cheap_hash("hunter2"), 0);
    let wrong = LoginRequest { email: "u@example.com".to_string(), password: "hunter3".to_string() };
    let unknown = LoginRequest { email: "v@example.com".to_string(), password: "hunter2".to_string() };
    assert_eq!(login_user_at(&state, &wrong, 0), Err(ApiError::Unauthorized));
    assert_eq!(login_user_at(&state, &unknown, 0), Err(ApiError::Unauthorized));
    assert_eq!(state.users.resolve_by_email_password("u@example.com", "hunter2"), Ok(5));
    assert_eq!(
        state.users.resolve_by_email_password("u@example.com", "x"),
        Err(ApiError::Unauthorized)
    );
}

#[test]
fn an_identity_proved_by_key_has_no_password() {
    let mut state = AppState::new("k");
    let (id, email) = state.users.resolve_or_create_with("ADDR", 9, 0);
    assert_eq!((id, email.as_str()), (9, "ADDR@inheritx.auth"));
    let payload = LoginRequest { email, password: "web3-auth-none".to_string() };
    assert_eq!(
        login_user_at(&state, &payload, 0),
        Err(ApiError::Internal("Failed to verify secret".to_string()))
    );
}

#[test]
fn admin_login_checks_the_lock_before_the_password() {
    let mut state = AppState::new("k");
    let admin = |id: u128, email: &str, status: &str| Admin {
        id,
        email: email.to_string(),
        password_hash: cheap_hash("pw"),
        role: "auditor".to_string(),
        status: status.to_string(),
    };
    state.admins.register(admin(1, "a@example.com", "active"));
    state.admins.register(admin(2, "b@example.com", "locked"));

    let login = |email: &str, password: &str| LoginRequest {
        email: email.to_string(),
        password: password.to_string(),
    };
    let token = login_admin_at(&state, &login("a@example.com", "pw"), 100).unwrap().token;
    assert_eq!(
        state.issuer.decode_and_validate_admin_at(&token, 101),
        Ok(AdminClaims {
            admin_id: 1,
            email: "a@example.com".to_string(),
            role: "auditor".to_string(),
            exp: 86_500,
        })
    );
    assert_eq!(
        login_admin_at(&state, &login("a@example.com", "no"), 100),
        Err(ApiError::Unauthorized)
    );
    assert_eq!(
        login_admin_at(&state, &login("c@example.com", "pw"), 100),
        Err(ApiError::Unauthorized)
    );
    // locked, right or wrong password
    let locked = ApiError::Forbidden("Account is locked".to_string());
    assert_eq!(login_admin_at(&state, &login("b@example.com", "pw"), 100), Err(locked.clone()));
    assert_eq!(login_admin_at(&state, &login("b@example.com", "no"), 100), Err(locked.clone()));
    assert_eq!(locked.status_code(), 403);
    assert!(login_admin(&state, &login("a@example.com", "pw")).is_ok());
}

#[test]
fn existence_checks_are_unauthorized_on_a_miss() {
    let mut state = AppState::new("k");
    state.users.register(5, "u@example.com", "h", 0);
    state.admins.register(Admin {
        id: 6,
        email: "a@example.com".to_string(),
        password_hash: "h".to_string(),
        role: "r".to_string(),
        status: "active".to_string(),
    });
    assert_eq!(verify_user_exists(&state.users, 5), Ok(()));
    assert_eq!(verify_user_exists(&state.users, 6), Err(ApiError::Unauthorized));
    assert_eq!(verify_admin_exists(&state.admins, 6), Ok(()));
    assert_eq!(verify_admin_exists(&state.admins, 5), Err(ApiError::Unauthorized));
}

#[test]
fn random_bytes_fold_into_six_digits() {
    assert_eq!(otp_from_bytes([0, 0, 0, 0]), "100000");
    assert_eq!(otp_from_bytes([0, 0, 0, 1]), "100001");
    // 899_999 and 900_000
    assert_eq!(otp_from_bytes([0x00, 0x0d, 0xbb, 0x9f]), "999999");
    assert_eq!(otp_from_bytes([0x00, 0x0d, 0xbb, 0xa0]), "100000");
    // 4_294_967_295 % 900_000 = 167_295
    assert_eq!(otp_from_bytes([0xff, 0xff, 0xff, 0xff]), "267295");
    // the first byte is the highest
    assert_eq!(otp_from_bytes([0x01, 0, 0, 0]), "677216");
}

#[test]
fn a_passcode_is_sent_only_to_a_known_identity() {
    let mut state = AppState::new("k");
    let request = Send2faRequest { user_id: 1 };
    assert_eq!(
        send_2fa(&mut state, &request),
        Err(ApiError::NotFound("User not found".to_string()))
    );
    assert_eq!(
        send_2fa_with(&mut state, &request, "123456", 0),
        Err(ApiError::NotFound("User not found".to_string()))
    );
    assert!(state.otps.get(1).is_none());
}

#[test]
fn a_sent_passcode_verifies_once() {
    let mut state = AppState::new("k");
    state.users.register(1, "u@example.com", "h", 0);
    let (response, code) = send_2fa(&mut state, &Send2faRequest { user_id: 1 }).unwrap();
    assert_eq!(response, TwoFaResponse { message: "OTP sent successfully".to_string() });
    assert_eq!(code.len(), 6);
    let row = state.otps.get(1).unwrap().clone();
    assert_eq!(row.attempts, 0);
    assert!(!row.otp_hash.contains(&code));
    assert!(bcrypt::verify(&code, &row.otp_hash).unwrap());

    let submit = Verify2faRequest { user_id: 1, otp: code.clone() };
    assert_eq!(
        verify_2fa(&mut state, &submit),
        Ok(TwoFaResponse { message: "OTP verified successfully".to_string() })
    );
    assert_eq!(verify_2fa(&mut state, &submit), Err(ApiError::Unauthorized));
}

#[test]
fn passcode_rejections_look_alike_from_outside() {
    let mut state = AppState::new("k");
    state.users.register(1, "u@example.com", "h", 0);
    // nothing pending
    assert_eq!(verify_2fa_internal_at(&mut state.otps, 1, "123456", 0), Err(ApiError::Unauthorized));

    state.otps.issue_with(1, cheap_hash("123456"), 1_000);
    // wrong code, three times
    for t in 0..3 {
        assert_eq!(
            verify_2fa_internal_at(&mut state.otps, 1, "000000", 1_001 + t),
            Err(ApiError::Unauthorized)
        );
        assert_eq!(state.otps.get(1).unwrap().attempts as u64, t + 1);
    }
    // the real code on the fourth try
    assert_eq!(verify_2fa_internal_at(&mut state.otps, 1, "123456", 1_010), Err(ApiError::Unauthorized));
    assert!(state.otps.get(1).is_none());

    // expired
    state.otps.issue_with(1, cheap_hash("123456"), 1_000);
    assert_eq!(verify_2fa_internal_at(&mut state.otps, 1, "123456", 1_301), Err(ApiError::Unauthorized));
    assert!(state.otps.get(1).is_none());

    // in time
    state.otps.issue_with(1, cheap_hash("123456"), 1_000);
    assert_eq!(verify_2fa_internal_at(&mut state.otps, 1, "123456", 1_300), Ok(()));

    // a hash that cannot be read fails closed
    state.otps.issue_with(1, "garbage".to_string(), 1_000);
    assert_eq!(
        verify_2fa_internal_at(&mut state.otps, 1, "123456", 1_001),
        Err(ApiError::Internal("Failed to verify secret".to_string()))
    );
    assert_eq!(verify_2fa_internal(&mut state.otps, 2, "123456"), Err(ApiError::Unauthorized));
}

#[test]
fn a_given_passcode_is_stored_hashed() {
    let mut state = AppState::new("k");
    state.users.register(3, "u@example.com", "h", 0);
    let response = send_2fa_with(&mut state, &Send2faRequest { user_id: 3 }, "271828", 500).unwrap();
    assert_eq!(response.message, "OTP sent successfully");
    let row = state.otps.get(3).unwrap().clone();
    assert_eq!((row.identity_id, row.attempts, row.created_at, row.expires_at), (3, 0, 500, 800));
    assert_ne!(row.otp_hash, "271828");
    assert_eq!(verify_2fa_internal_at(&mut state.otps, 3, "271828", 800), Ok(()));
}

#[test]
fn a_wallet_login_is_judged_from_the_nonce_and_the_verdict() {
    let challenge = WalletChallenge {
        address: "A".to_string(),
        nonce: "n".to_string(),
        issued_at: 0,
        expires_at: 300,
    };
    let malformed = ApiError::BadRequest("Invalid signature format".to_string());
    assert_eq!(judge_wallet_login(Some(&challenge), Ok(true), 300), Ok(()));
    assert_eq!(judge_wallet_login(Some(&challenge), Ok(false), 300), Err(ApiError::Unauthorized));
    assert_eq!(
        judge_wallet_login(Some(&challenge), Err(malformed.clone()), 300),
        Err(malformed.clone())
    );
    // a missing or expired nonce comes first
    assert_eq!(judge_wallet_login(Some(&challenge), Ok(true), 301), Err(ApiError::Unauthorized));
    assert_eq!(
        judge_wallet_login(Some(&challenge), Err(malformed.clone()), 301),
        Err(ApiError::Unauthorized)
    );
    assert_eq!(judge_wallet_login(None, Ok(true), 0), Err(ApiError::Unauthorized));
    assert_eq!(judge_wallet_login(None, Err(malformed), 0), Err(ApiError::Unauthorized));
}

#[test]
fn a_password_is_judged_from_the_hashers_word() {
    let identity = Identity {
        id: 1,
        email: "u@example.com".to_string(),
        password_hash: "h".to_string(),
        wallet_address: None,
        created_at: 0,
    };
    let internal = ApiError::Internal("Failed to verify secret".to_string());
    assert_eq!(judge_password(Some(&identity), Some(true)), Ok(&identity));
    assert_eq!(judge_password(Some(&identity), Some(false)), Err(ApiError::Unauthorized));
    assert_eq!(judge_password(Some(&identity), None), Err(internal.clone()));
    assert_eq!(judge_password(None, Some(true)), Err(ApiError::Unauthorized));

    let admin = |status: &str| Admin {
        id: 2,
        email: "a@example.com".to_string(),
        password_hash: "h".to_string(),
        role: "r".to_string(),
        status: status.to_string(),
    };
    let active = admin("active");
    let locked = admin("locked");
    let forbidden = ApiError::Forbidden("Account is locked".to_string());
    assert_eq!(judge_admin_password(Some(&active), Some(true)), Ok(&active));
    assert_eq!(judge_admin_password(Some(&active), Some(false)), Err(ApiError::Unauthorized));
    assert_eq!(judge_admin_password(Some(&active), None), Err(internal));
    assert_eq!(judge_admin_password(Some(&locked), Some(true)), Err(forbidden.clone()));
    assert_eq!(judge_admin_password(Some(&locked), None), Err(forbidden));
    assert_eq!(judge_admin_password(None, Some(true)), Err(ApiError::Unauthorized));
}

#[test]
fn a_requested_nonce_is_the_text_of_an_identifier() {
    let mut state = AppState::new("k");
    let nonce = get_nonce(&mut state, &NonceRequest { wallet_address: "A".to_string() })
        .unwrap()
        .nonce;
    assert_eq!(nonce.len(), 36);
    let id = uuid::Uuid::parse_str(&nonce).unwrap();
    assert_eq!(id.hyphenated().to_string(), nonce);
    assert_eq!(id.get_version_num(), 4);
    assert_eq!(state.nonces.get("A").unwrap().nonce, nonce);
    let other = generate_nonce(&mut state, "B".to_string()).unwrap().nonce;
    assert_eq!(other.len(), 36);
    assert_ne!(other, nonce);
    assert_eq!(state.nonces.get("A").unwrap().nonce, nonce);
}

#[test]
fn a_valid_login_always_gets_a_token_that_decodes() {
    let mut state = AppState::new("");
    let pair = key_pair(21);
    let address = stellar_address(&pair);
    state.nonces.issue_at(&address, "n".to_string(), 0);
    let payload = Web3LoginRequest { wallet_address: address.clone(), signature: sign(&pair, "n") };
    // an empty secret and an odd contact still sign
    let token = web3_login_at(&mut state, &payload, 300, u128::MAX).unwrap().token;
    assert_eq!(
        state.issuer.decode_and_validate_at(&token, 86_699),
        Ok(UserClaims {
            user_id: u128::MAX,
            email: format!("{}@inheritx.auth", address),
            exp: 86_700,
        })
    );
    state.users.register(7, "weird \"quoted\"\n\u{0}@example.com", &cheap_hash("pw"), 0);
    let login = LoginRequest {
        email: "weird \"quoted\"\n\u{0}@example.com".to_string(),
        password: "pw".to_string(),
    };
    let token = login_user_at(&state, &login, 5).unwrap().token;
    let claims = state.issuer.decode_and_validate_at(&token, 6).unwrap();
    assert_eq!((claims.user_id, claims.exp), (7, 86_405));
    assert_eq!(claims.email, login.email);
}
