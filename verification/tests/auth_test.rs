use diem_backend::auth::{
    login, register, validate_registration, LoginAction, LoginEvent, LoginRequest, LoginState, RegisterAction,
    RegisterEvent, RegisterRequest, RegisterState, UserRecord,
};
use diem_backend::error::AppError;

fn request(email: &str, password: &str, name: &str, tz: &str) -> RegisterRequest {
    RegisterRequest {
        email: email.to_string(),
        password: password.to_string(),
        display_name: name.to_string(),
        timezone: tz.to_string(),
    }
}

fn validation_message(r: &RegisterRequest) -> Option<String> {
    match validate_registration(r) {
        Ok(()) => None,
        Err(AppError::Validation(m)) => Some(m),
        Err(_) => panic!("unexpected error kind"),
    }
}

#[test]
fn registration_requires_all_fields() {
    let m = Some("All fields are required".to_string());
    assert_eq!(validation_message(&request("", "testpassword123", "Test User", "UTC")), m);
    assert_eq!(validation_message(&request("a@test.com", "", "Test User", "UTC")), m);
    assert_eq!(validation_message(&request("a@test.com", "testpassword123", "", "UTC")), m);
}

#[test]
fn registration_password_length_counts_bytes() {
    assert_eq!(
        validation_message(&request("a@test.com", "short12", "Test User", "UTC")),
        Some("Password must be at least 8 characters".to_string())
    );
    assert_eq!(validation_message(&request("a@test.com", "exactly8", "Test User", "UTC")), None);
    // Four characters, eight UTF-8 bytes.
    assert_eq!(validation_message(&request("a@test.com", "éééé", "Test User", "UTC")), None);
}

#[test]
fn registration_rejects_unknown_timezone() {
    assert_eq!(
        validation_message(&request("a@test.com", "testpassword123", "Test User", "Mars/Base")),
        Some("Invalid timezone: Mars/Base".to_string())
    );
    assert_eq!(validation_message(&request("a@test.com", "testpassword123", "Test User", "Africa/Lagos")), None);
}

#[test]
fn registration_checks_fields_before_password_and_zone() {
    assert_eq!(
        validation_message(&request("", "x", "Test User", "Mars/Base")),
        Some("All fields are required".to_string())
    );
    assert_eq!(
        validation_message(&request("a@test.com", "x", "Test User", "Mars/Base")),
        Some("Password must be at least 8 characters".to_string())
    );
}

#[test]
fn invalid_registration_is_answered_400() {
    let (s, a) = register(
        RegisterState::Start,
        RegisterEvent::Submitted { request: request("a@test.com", "short", "Test User", "UTC") },
    );
    assert!(matches!(s, RegisterState::Done));
    match a {
        RegisterAction::Fail(e) => assert_eq!(e.http_status(), 400),
        _ => panic!("expected Fail"),
    }
}

#[test]
fn taken_email_is_answered_409() {
    let (s, a) = register(
        RegisterState::Start,
        RegisterEvent::Submitted { request: request("dup@test.com", "testpassword123", "Test User", "UTC") },
    );
    match a {
        RegisterAction::CheckEmail { email } => assert_eq!(email, "dup@test.com"),
        _ => panic!("expected CheckEmail"),
    }
    let (s, a) = register(s, RegisterEvent::EmailChecked { taken: true });
    assert!(matches!(s, RegisterState::Done));
    match a {
        RegisterAction::Fail(e) => {
            assert!(matches!(e, AppError::EmailTaken));
            assert_eq!(e.http_status(), 409);
        },
        _ => panic!("expected Fail"),
    }
}

/// Registers an account and returns the stored record it asks to insert.
fn register_account(email: &str, password: &str) -> UserRecord {
    let (s, _) = register(
        RegisterState::Start,
        RegisterEvent::Submitted { request: request(email, password, "Test User", "Africa/Lagos") },
    );
    let (s, a) = register(s, RegisterEvent::EmailChecked { taken: false });
    let record = match a {
        RegisterAction::Insert { user, password_hash } => {
            assert_eq!(user.email, email);
            assert_eq!(user.display_name, "Test User");
            assert_eq!(user.timezone, "Africa/Lagos");
            assert_eq!((user.id >> 76) & 0xf, 4);
            assert_eq!((user.id >> 62) & 0x3, 2);
            assert!(password_hash.starts_with("$argon2id$"));
            assert!(!password_hash.contains(password));
            UserRecord {
                id: user.id,
                email: user.email,
                password_hash,
                display_name: user.display_name,
                timezone: user.timezone,
            }
        },
        _ => panic!("expected Insert"),
    };
    let (s, a) = register(s, RegisterEvent::Inserted);
    match a {
        RegisterAction::SignToken { user_id } => assert_eq!(user_id, record.id),
        _ => panic!("expected SignToken"),
    }
    let (s, a) = register(s, RegisterEvent::TokenSigned { token: "tok".to_string() });
    assert!(matches!(s, RegisterState::Done));
    match a {
        RegisterAction::Respond { status, body } => {
            assert_eq!(status, 201);
            assert_eq!(body.token, "tok");
            assert_eq!(body.user.id, record.id);
            assert_eq!(body.user.email, email);
        },
        _ => panic!("expected Respond"),
    }
    record
}

fn clone_record(r: &UserRecord) -> UserRecord {
    UserRecord {
        id: r.id,
        email: r.email.clone(),
        password_hash: r.password_hash.clone(),
        display_name: r.display_name.clone(),
        timezone: r.timezone.clone(),
    }
}

/// Runs a login up to the stored record; returns the action after it.
fn login_with(password: &str, record: Option<UserRecord>) -> (LoginState, LoginAction) {
    let (s, a) = login(
        LoginState::Start,
        LoginEvent::Submitted {
            request: LoginRequest { email: "user@test.com".to_string(), password: password.to_string() },
        },
    );
    match a {
        LoginAction::FindUser { email } => assert_eq!(email, "user@test.com"),
        _ => panic!("expected FindUser"),
    }
    login(s, LoginEvent::UserLoaded { record })
}

#[test]
fn registered_password_logs_in_and_wrong_one_does_not() {
    let record = register_account("user@test.com", "testpassword123");
    let (s, a) = login_with("testpassword123", Some(clone_record(&record)));
    match a {
        LoginAction::SignToken { user_id } => assert_eq!(user_id, record.id),
        _ => panic!("expected SignToken"),
    }
    let (s, a) = login(s, LoginEvent::TokenSigned { token: "t".to_string() });
    assert!(matches!(s, LoginState::Done));
    match a {
        LoginAction::Respond { status, body } => {
            assert_eq!(status, 200);
            assert_eq!(body.token, "t");
            assert_eq!(body.user.id, record.id);
            assert_eq!(body.user.timezone, "Africa/Lagos");
        },
        _ => panic!("expected Respond"),
    }
    let (_, a) = login_with("testpassword124", Some(record));
    match a {
        LoginAction::Fail(e) => {
            assert!(matches!(e, AppError::InvalidCredentials));
            assert_eq!(e.http_status(), 401);
        },
        _ => panic!("expected Fail"),
    }
}

#[test]
fn unknown_email_is_invalid_credentials() {
    let (s, a) = login_with("testpassword123", None);
    assert!(matches!(s, LoginState::Done));
    assert!(matches!(a, LoginAction::Fail(AppError::InvalidCredentials)));
}

#[test]
fn corrupt_stored_hash_is_internal_error() {
    let record = UserRecord {
        id: 7,
        email: "user@test.com".to_string(),
        password_hash: "not a phc string".to_string(),
        display_name: "Test User".to_string(),
        timezone: "UTC".to_string(),
    };
    let (_, a) = login_with("testpassword123", Some(record));
    match a {
        LoginAction::Fail(AppError::Internal(m)) => assert!(m.starts_with("Stored hash is corrupt: ")),
        _ => panic!("expected an internal error"),
    }
}

#[test]
fn register_out_of_order_event_fails() {
    let (s, a) = register(RegisterState::Start, RegisterEvent::Inserted);
    assert!(matches!(s, RegisterState::Done));
    assert!(matches!(a, RegisterAction::Fail(AppError::Internal(ref m)) if m == "event out of order"));
}

#[test]
fn login_out_of_order_event_fails() {
    let (_, a) = login(LoginState::Start, LoginEvent::UserLoaded { record: None });
    assert!(matches!(a, LoginAction::Fail(AppError::Internal(ref m)) if m == "event out of order"));
}
