use shop_core::auth::{AuthService, TOKEN_LIFETIME_SECS};
use shop_core::error::AppError;
use shop_core::user::{Claims, RegisterRequest, User};

fn request(email: &str, phone: Option<&str>, password: &str) -> RegisterRequest {
    RegisterRequest {
        email: email.to_string(),
        phone: phone.map(|p| p.to_string()),
        password: password.to_string(),
        full_name: Some("Alice".to_string()),
    }
}

fn stored_user(password: &str) -> User {
    let mut user = AuthService::register(request("alice@example.com", None, password), false, 1_700_000_000_000)
        .ok()
        .expect("registration succeeds");
    user.id = Some("65a1b2c3d4e5f60718293a4b".to_string());
    user
}

fn validation_message(r: Result<User, AppError>) -> String {
    match r {
        Err(AppError::ValidationError(m)) => m,
        _ => panic!("expected a validation error"),
    }
}

fn auth_message<T>(r: Result<T, AppError>) -> String {
    match r {
        Err(AppError::AuthError(m)) => m,
        _ => panic!("expected an authentication error"),
    }
}

#[test]
fn register_builds_customer_account() {
    let user = AuthService::register(request("bob@example.com", Some("+15550100"), "longenough"), false, 42)
        .ok()
        .expect("registration succeeds");
    assert!(user.id.is_none());
    assert_eq!(user.email, "bob@example.com");
    assert_eq!(user.phone.as_deref(), Some("+15550100"));
    assert_eq!(user.full_name.as_deref(), Some("Alice"));
    assert_eq!(user.role, "customer");
    assert_eq!(user.created_at, 42);
    assert_ne!(user.password_hash, "longenough");
    assert!(user.password_hash.starts_with("$2"));
    assert!(AuthService::login(Some(stored_user("longenough")), "longenough").is_ok());
}

#[test]
fn short_password_is_refused_before_anything_else() {
    let msg = validation_message(AuthService::register(request("a@example.com", None, "short"), true, 0));
    assert_eq!(msg, "Password must be at least 8 characters");
    let msg = validation_message(AuthService::register(request("", Some(""), "1234567"), false, 0));
    assert_eq!(msg, "Password must be at least 8 characters");
    assert!(AuthService::check_password_length("12345678").is_ok());
    assert!(AuthService::check_password_length("1234567").is_err());
}

#[test]
fn password_length_counts_characters() {
    assert!(AuthService::check_password_length("éééééééé").is_ok());
    assert!(AuthService::check_password_length("ééééééé").is_err());
    let req = request("carol@example.com", None, "ééééééé");
    assert_eq!(validation_message(AuthService::register(req, false, 0)), "Password must be at least 8 characters");
}

#[test]
fn second_registration_with_same_email_is_refused() {
    let first = stored_user("password123");
    let second = request("alice@example.com", Some("+15550199"), "another-pass");
    let lookup = AuthService::registration_lookup(&second);
    assert!(lookup.matches(&first));
    let msg = validation_message(AuthService::register(second, lookup.matches(&first), 0));
    assert_eq!(msg, "Email or phone already registered");
}

#[test]
fn registration_lookup_skips_empty_phone() {
    let req = request("new@example.com", Some(""), "password123");
    let lookup = AuthService::registration_lookup(&req);
    assert!(lookup.phone.is_none());
    let mut other = stored_user("password123");
    other.phone = Some(String::new());
    assert!(!lookup.matches(&other));
    let req = request("new@example.com", Some("+15550100"), "password123");
    other.phone = Some("+15550100".to_string());
    assert!(AuthService::registration_lookup(&req).matches(&other));
}

#[test]
fn login_lookup_matches_email_or_phone() {
    let mut user = stored_user("password123");
    user.phone = Some("+15550100".to_string());
    assert!(AuthService::login_lookup("alice@example.com").matches(&user));
    assert!(AuthService::login_lookup("+15550100").matches(&user));
    assert!(!AuthService::login_lookup("bob@example.com").matches(&user));
}

#[test]
fn login_accepts_right_password() {
    let user = stored_user("password123");
    let got = AuthService::login(Some(user), "password123").ok().expect("login succeeds");
    assert_eq!(got.email, "alice@example.com");
}

#[test]
fn login_failures_read_the_same() {
    let wrong = auth_message(AuthService::login(Some(stored_user("password123")), "wrongpass"));
    let missing = auth_message(AuthService::login(None, "anything"));
    assert_eq!(wrong, missing);
    assert_eq!(wrong, "Invalid credentials");
}

#[test]
fn login_with_malformed_hash_is_internal() {
    let mut user = stored_user("password123");
    user.password_hash = "not-a-hash".to_string();
    assert!(matches!(AuthService::login(Some(user), "password123"), Err(AppError::InternalError)));
}

#[test]
fn issued_token_verifies_with_same_secret() {
    let user = stored_user("password123");
    let now: u64 = 1_700_000_000;
    let token = AuthService::issue_token(&user, "top-secret", now).ok().expect("token");
    assert_eq!(token.split('.').count(), 3);
    let claims = AuthService::verify_jwt_at(&token, "top-secret", now + 10).ok().expect("valid");
    assert_eq!(claims.sub, "65a1b2c3d4e5f60718293a4b");
    assert_eq!(claims.email, "alice@example.com");
    assert_eq!(claims.role, "customer");
    assert_eq!(claims.iat, now);
    assert_eq!(claims.exp, now + 86_400);
    assert_eq!(TOKEN_LIFETIME_SECS, 86_400);
}

#[test]
fn issued_token_fails_with_other_secret() {
    let user = stored_user("password123");
    let token = AuthService::issue_token(&user, "top-secret", 1_700_000_000).ok().expect("token");
    assert_eq!(auth_message(AuthService::verify_jwt_at(&token, "other-secret", 1_700_000_000)), "Invalid token");
}

#[test]
fn expired_token_fails() {
    let user = stored_user("password123");
    let issued: u64 = 1_000_000;
    let token = AuthService::issue_token(&user, "k", issued).ok().expect("token");
    let exp = issued + 86_400;
    assert!(AuthService::verify_jwt_at(&token, "k", exp).is_ok());
    assert_eq!(auth_message(AuthService::verify_jwt_at(&token, "k", exp + 1)), "Invalid token");
}

#[test]
fn token_at_current_time_round_trips() {
    let user = stored_user("password123");
    let token = AuthService::generate_jwt(&user, "live-secret").ok().expect("token");
    let claims = AuthService::verify_jwt(&token, "live-secret").ok().expect("valid");
    assert_eq!(claims.exp - claims.iat, 86_400);
    assert!(AuthService::verify_jwt(&token, "wrong").is_err());
}

#[test]
fn garbage_token_fails() {
    assert_eq!(auth_message(AuthService::verify_jwt_at("not.a.token", "k", 0)), "Invalid token");
    assert_eq!(auth_message(AuthService::verify_jwt_at("", "k", 0)), "Invalid token");
}

#[test]
fn token_issue_overflow_is_internal() {
    let user = stored_user("password123");
    assert!(matches!(AuthService::issue_token(&user, "k", u64::MAX - 10), Err(AppError::InternalError)));
}

#[test]
fn expiry_check_on_decoded_payloads() {
    let claims = Claims { sub: "x".into(), email: "e".into(), role: "customer".into(), exp: 100, iat: 0 };
    assert!(AuthService::check_expiry(Some(claims), 100).is_ok());
    let claims = Claims { sub: "x".into(), email: "e".into(), role: "customer".into(), exp: 100, iat: 0 };
    assert_eq!(auth_message(AuthService::check_expiry(Some(claims), 101)), "Invalid token");
    assert_eq!(auth_message(AuthService::check_expiry(None, 0)), "Invalid token");
}

#[test]
fn user_response_hides_password() {
    let user = stored_user("password123");
    let r = AuthService::user_to_response(&user);
    assert_eq!(r.id, "65a1b2c3d4e5f60718293a4b");
    assert_eq!(r.email, "alice@example.com");
    assert_eq!(r.full_name.as_deref(), Some("Alice"));
    assert_eq!(r.role, "customer");
}
