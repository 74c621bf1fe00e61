use inheritx_backend::api_error::ApiError;
use inheritx_backend::clock::{deadline, epoch_seconds, now};
use inheritx_backend::config::{parse_port, Config, ConfigVars, EmailConfig};
use inheritx_backend::email::EmailService;
use inheritx_backend::handlers::two_fa as flags;
use inheritx_backend::http::admin::{
    get_dashboard_stats, get_system_health, DashboardStats, KycStatus,
};
use inheritx_backend::identity::IdentityDirectory;
use inheritx_backend::nonce::NonceError;
use inheritx_backend::state::AppState;
use inheritx_backend::two_fa::handlers::{send_2fa_handler, verify_2fa_handler};
use inheritx_backend::two_fa::models::{Send2FARequest, Verify2FARequest};

fn vars() -> ConfigVars {
    ConfigVars {
        database_url: Some("postgres://localhost/db".to_string()),
        port: None,
        smtp_host: None,
        smtp_port: None,
        smtp_username: None,
        smtp_password: None,
        from_email: None,
        jwt_secret: Some("test-jwt-secret".to_string()),
    }
}

#[test]
fn errors_have_a_status_and_a_text() {
    assert_eq!(ApiError::BadRequest("bad".to_string()).status_code(), 400);
    assert_eq!(ApiError::Unauthorized.status_code(), 401);
    assert_eq!(ApiError::Forbidden("no".to_string()).status_code(), 403);
    assert_eq!(ApiError::NotFound("gone".to_string()).status_code(), 404);
    assert_eq!(ApiError::Internal("boom".to_string()).status_code(), 500);
    assert_eq!(ApiError::BadRequest("bad".to_string()).to_string(), "bad");
    assert_eq!(ApiError::Unauthorized.to_string(), "Unauthorized");
    assert_eq!(ApiError::Internal("boom".to_string()).to_string(), "boom");
    assert_eq!(ApiError::bad_request("x"), ApiError::BadRequest("x".to_string()));
    assert_eq!(ApiError::not_found("x"), ApiError::NotFound("x".to_string()));
    assert_eq!(ApiError::forbidden("x"), ApiError::Forbidden("x".to_string()));
    assert_eq!(ApiError::internal("x"), ApiError::Internal("x".to_string()));
}

#[test]
fn nonce_failures_are_all_unauthorized_outside() {
    for reason in [NonceError::NotFound, NonceError::Expired, NonceError::Mismatch] {
        assert_eq!(reason.to_api_error(), ApiError::Unauthorized);
    }
}

#[test]
fn ports_are_parsed_exactly() {
    assert_eq!(parse_port("8080"), Some(8080));
    assert_eq!(parse_port("0"), Some(0));
    assert_eq!(parse_port("+443"), Some(443));
    assert_eq!(parse_port("00080"), Some(80));
    assert_eq!(parse_port("65535"), Some(65535));
    assert_eq!(parse_port("65536"), None);
    assert_eq!(parse_port("99999999999999999999"), None);
    assert_eq!(parse_port(""), None);
    assert_eq!(parse_port("+"), None);
    assert_eq!(parse_port("-1"), None);
    assert_eq!(parse_port(" 80"), None);
    assert_eq!(parse_port("80 "), None);
    assert_eq!(parse_port("8_0"), None);
    assert_eq!(parse_port("++80"), None);
    assert_eq!(parse_port("８０"), None);
    for text in ["8080", "+443", "65536", "", "+", "-1", " 80", "00080", "1e3"] {
        assert_eq!(parse_port(text), text.parse::<u16>().ok());
    }
}

#[test]
fn the_configuration_has_defaults() {
    let config = match Config::from_vars(&vars()) {
        Ok(config) => config,
        Err(e) => panic!("{}", e.to_string()),
    };
    assert!(
        config
        == Config {
            database_url: "postgres://localhost/db".to_string(),
            port: 8080,
            email: EmailConfig {
                smtp_host: "smtp.gmail.com".to_string(),
                smtp_port: 587,
                smtp_username: "".to_string(),
                smtp_password: "".to_string(),
                from_email: "noreply@inheritx.com".to_string(),
            },
            jwt_secret: "test-jwt-secret".to_string(),
        }
    );
    assert_eq!(config.port, 8080);
    assert_eq!(config.email.smtp_port, 587);
    assert_eq!(config.email.from_email, "noreply@inheritx.com");
}

#[test]
fn the_configuration_reads_what_is_set() {
    let mut v = vars();
    v.port = Some("3000".to_string());
    v.smtp_host = Some("smtp.example.com".to_string());
    v.smtp_port = Some("2525".to_string());
    v.smtp_username = Some("mailer".to_string());
    v.smtp_password = Some("pw".to_string());
    v.from_email = Some("no-reply@example.com".to_string());
    v.jwt_secret = Some("s3cret".to_string());
    let config = Config::from_vars(&v).ok().unwrap();
    assert_eq!(config.port, 3000);
    assert_eq!(config.email.smtp_host, "smtp.example.com");
    assert_eq!(config.email.smtp_port, 2525);
    assert_eq!(config.email.smtp_username, "mailer");
    assert_eq!(config.email.smtp_password, "pw");
    assert_eq!(config.email.from_email, "no-reply@example.com");
    assert_eq!(config.jwt_secret, "s3cret");

    // a mail port that is no number falls back
    v.smtp_port = Some("smtp".to_string());
    assert_eq!(Config::from_vars(&v).ok().unwrap().email.smtp_port, 587);
}

#[test]
fn the_configuration_needs_a_database_and_a_port() {
    let mut v = vars();
    v.port = Some("eighty".to_string());
    assert_eq!(
        Config::from_vars(&v).err(),
        Some(ApiError::Internal("PORT must be a valid number".to_string()))
    );
    v.database_url = None;
    assert_eq!(
        Config::from_vars(&v).err(),
        Some(ApiError::Internal("DATABASE_URL must be set".to_string()))
    );
    // the signing secret has no default
    let mut v = vars();
    v.jwt_secret = None;
    assert_eq!(
        Config::from_vars(&v).err(),
        Some(ApiError::Internal("JWT_SECRET must be set".to_string()))
    );
    v.port = Some("eighty".to_string());
    assert_eq!(
        Config::from_vars(&v).err(),
        Some(ApiError::Internal("PORT must be a valid number".to_string()))
    );
    v.port = None;
    v.jwt_secret = Some(String::new());
    assert!(Config::from_vars(&v).is_ok());
}

#[test]
fn the_mail_service_keeps_its_configuration() {
    let config = EmailConfig {
        smtp_host: "smtp.example.com".to_string(),
        smtp_port: 587,
        smtp_username: "test@example.com".to_string(),
        smtp_password: "password".to_string(),
        from_email: "noreply@inheritx.com".to_string(),
    };
    let service = EmailService::new(config);
    assert_eq!(service.from_email(), "noreply@inheritx.com");
}

#[test]
fn the_passcode_mail_is_composed() {
    let mail = inheritx_backend::email_service::EmailService::otp_email("user@example.com", "123456");
    assert_eq!(mail.to, "user@example.com");
    assert_eq!(mail.subject, "Your InheritX Verification Code");
    assert_eq!(
        mail.body,
        "Your InheritX verification code is: 123456\n\nThis code will expire in 5 minutes.\n\nIf you didn't request this code, please ignore this email."
    );
}

#[test]
fn the_dashboard_reports() {
    assert_eq!(
        get_dashboard_stats(),
        DashboardStats {
            total_users: 0,
            total_payments: 0,
            total_transfers: 0,
            total_withdrawals: 0,
            active_merchants: 0,
        }
    );
    let health = get_system_health();
    assert_eq!(health.database, "healthy");
    assert_eq!(health.services, vec!["identity".to_string(), "payment".to_string()]);
}

#[test]
fn identities_are_found_or_created_by_address() {
    let mut users = IdentityDirectory::new();
    users.register(1, "a@example.com", "h", 5);
    assert_eq!(users.resolve_or_create_with("GADDR1", 2, 10), (2, "GADDR1@inheritx.auth".to_string()));
    assert_eq!(users.len(), 2);
    // found: the fresh identifier is not used
    assert_eq!(users.resolve_or_create_with("GADDR1", 3, 20), (2, "GADDR1@inheritx.auth".to_string()));
    assert_eq!(users.len(), 2);
    assert_eq!(users.resolve_or_create_with("GADDR2", 3, 20), (3, "GADDR2@inheritx.auth".to_string()));
    assert_eq!(users.len(), 3);

    let created = users.find_by_id(2).unwrap();
    assert_eq!(created.created_at, 10);
    assert_eq!(created.wallet_address, Some("GADDR1".to_string()));
    assert_eq!(users.find_by_email("GADDR2@inheritx.auth").unwrap().id, 3);
    assert_eq!(users.find_by_email("a@example.com").unwrap().wallet_address, None);
    assert!(users.find_by_address("a@example.com").is_none());
    assert!(users.find_by_id(4).is_none());

    let (id, email) = users.resolve_or_create_by_address("GADDR3");
    assert_eq!(email, "GADDR3@inheritx.auth");
    assert_eq!(users.resolve_or_create_by_address("GADDR3"), (id, email));
    assert_eq!(users.len(), 4);
}

#[test]
fn the_handlers_send_and_verify() {
    let mut state = AppState::new("k");
    assert_eq!(
        send_2fa_handler(&mut state, &Send2FARequest { user_id: 1 }),
        Err(ApiError::NotFound("User not found".to_string()))
    );
    state.users.register(1, "u@example.com", "h", 0);
    let (response, delivery) = send_2fa_handler(&mut state, &Send2FARequest { user_id: 1 }).unwrap();
    assert_eq!(response.message, "OTP sent to u@example.com");
    assert_eq!(response.expires_in_seconds, 300);
    assert_eq!(delivery.to, "u@example.com");
    assert_eq!(delivery.code.len(), 6);

    let wrong = if delivery.code == "000000" { "000001" } else { "000000" };
    assert_eq!(
        verify_2fa_handler(&mut state, &Verify2FARequest { user_id: 1, otp: wrong.to_string() }),
        Err(ApiError::Unauthorized)
    );
    let ok = verify_2fa_handler(&mut state, &Verify2FARequest { user_id: 1, otp: delivery.code })
        .unwrap();
    assert!(ok.verified);
    assert_eq!(ok.message, "OTP verified successfully");
}

#[test]
fn the_flagged_handlers_check_the_format_first() {
    let mut state = AppState::new("k");
    assert_eq!(
        flags::send_2fa(&mut state, &flags::Send2faRequest { user_id: 1 }),
        Err(ApiError::NotFound("User not found".to_string()))
    );
    state.users.register(1, "u@example.com", "h", 0);
    let (response, delivery) =
        flags::send_2fa(&mut state, &flags::Send2faRequest { user_id: 1 }).unwrap();
    assert!(response.success);
    assert_eq!(response.message, "OTP sent successfully to your email");
    assert_eq!(delivery.to, "u@example.com");

    // a malformed code costs no attempt
    let malformed = flags::Verify2faRequest { user_id: 1, otp: "12345".to_string() };
    assert_eq!(
        flags::verify_2fa(&mut state, &malformed),
        Err(ApiError::BadRequest("Invalid OTP format. Must be 6 digits".to_string()))
    );
    assert_eq!(state.otps.get(1).unwrap().attempts, 0);

    let wrong = if delivery.code == "000000" { "000001" } else { "000000" };
    let miss = flags::Verify2faRequest { user_id: 1, otp: wrong.to_string() };
    assert_eq!(flags::verify_2fa(&mut state, &miss), Err(ApiError::Unauthorized));
    assert_eq!(state.otps.get(1).unwrap().attempts, 1);

    let hit = flags::Verify2faRequest { user_id: 1, otp: delivery.code };
    let ok = flags::verify_2fa(&mut state, &hit).unwrap();
    assert!(ok.success);
    assert_eq!(ok.message, "OTP verified successfully");
    assert_eq!(flags::verify_2fa(&mut state, &hit), Err(ApiError::Unauthorized));
}

#[test]
fn a_review_is_pending_until_recorded_otherwise() {
    assert_eq!(KycStatus::from_str("approved"), KycStatus::Approved);
    assert_eq!(KycStatus::from_str("rejected"), KycStatus::Rejected);
    assert_eq!(KycStatus::from_str("pending"), KycStatus::Pending);
    assert_eq!(KycStatus::from_str("Approved"), KycStatus::Pending);
    assert_eq!(KycStatus::from_str(""), KycStatus::Pending);
    assert_eq!(KycStatus::of_record(None), KycStatus::Pending);
    assert_eq!(KycStatus::of_record(Some("approved")), KycStatus::Approved);
    for status in [KycStatus::Pending, KycStatus::Approved, KycStatus::Rejected] {
        assert_eq!(KycStatus::from_str(&status.to_string()), status);
    }
    assert_eq!(KycStatus::Rejected.to_string(), "rejected");
}

#[test]
fn a_clock_reading_before_the_epoch_reads_as_zero() {
    assert_eq!(epoch_seconds(0), 0);
    assert_eq!(epoch_seconds(1_700_000_000), 1_700_000_000);
    assert_eq!(epoch_seconds(-1), 0);
    assert_eq!(epoch_seconds(i64::MIN), 0);
    assert_eq!(epoch_seconds(i64::MAX), i64::MAX as u64);
    let t = now();
    assert!(t > 1_600_000_000 && t <= i64::MAX as u64);
}

#[test]
fn a_deadline_is_the_sum_or_nothing() {
    assert_eq!(deadline(1_000, 300), Some(1_300));
    assert_eq!(deadline(0, 0), Some(0));
    assert_eq!(deadline(u64::MAX - 300, 300), Some(u64::MAX));
    assert_eq!(deadline(u64::MAX - 299, 300), None);
}
