use shop_core::auth::AuthService;
use shop_core::error::AppError;
use shop_core::guard::{bearer_token, AuthUser};
use shop_core::user::User;

fn user() -> User {
    User {
        id: Some("65a1b2c3d4e5f60718293a4b".to_string()),
        email: "admin@example.com".to_string(),
        phone: None,
        password_hash: String::new(),
        full_name: None,
        role: "admin".to_string(),
        created_at: 0,
    }
}

fn failure(r: Result<AuthUser, AppError>) -> (u16, String) {
    match r {
        Err(e) => (e.status_code(), e.public_message()),
        Ok(_) => panic!("expected a failure"),
    }
}

#[test]
fn missing_header_is_unauthorized() {
    assert_eq!(
        failure(AuthUser::from_header_at(None, "k", 0)),
        (401, "Missing authorization header".to_string())
    );
}

#[test]
fn non_bearer_header_is_unauthorized() {
    assert_eq!(
        failure(AuthUser::from_header_at(Some("Basic dXNlcjpwYXNz"), "k", 0)),
        (401, "Invalid authorization format".to_string())
    );
    assert_eq!(
        failure(AuthUser::from_header(Some("bearer abc"), "k")),
        (401, "Invalid authorization format".to_string())
    );
}

#[test]
fn bearer_with_bad_token_is_unauthorized() {
    assert_eq!(failure(AuthUser::from_header_at(Some("Bearer abc"), "k", 0)), (401, "Invalid token".to_string()));
}

#[test]
fn bearer_with_valid_token_passes() {
    let token = AuthService::issue_token(&user(), "k", 5_000).ok().expect("token");
    let header = format!("Bearer {}", token);
    let who = AuthUser::from_header_at(Some(&header), "k", 5_001).ok().expect("authenticated");
    assert_eq!(who.claims.role, "admin");
    assert_eq!(who.claims.sub, "65a1b2c3d4e5f60718293a4b");
    let live = AuthService::generate_jwt(&user(), "k").ok().expect("token");
    assert!(AuthUser::from_header(Some(&format!("Bearer {}", live)), "k").is_ok());
}

#[test]
fn bearer_prefix_is_stripped() {
    assert_eq!(bearer_token(Some("Bearer abc.def")).ok(), Some("abc.def"));
    assert_eq!(bearer_token(Some("Bearer ")).ok(), Some(""));
    assert!(bearer_token(Some("Bearer")).is_err());
}
