use shop_core::error::AppError;
use shop_core::response::ApiResponse;
use shop_core::text::{contains_ignoring_case, contains_text, has_prefix, strip_prefix};

#[test]
fn success_envelopes() {
    let r = ApiResponse::success(5u32);
    assert_eq!((r.status.as_str(), r.message, r.data), ("success", None, Some(5)));
    let r = ApiResponse::with_message(0u8, "Product deleted successfully");
    assert_eq!(r.status, "success");
    assert_eq!(r.message.as_deref(), Some("Product deleted successfully"));
    assert_eq!(r.data, Some(0));
}

#[test]
fn error_envelope_has_no_data() {
    let r: ApiResponse<String> = ApiResponse::error("boom");
    assert_eq!(r.status, "error");
    assert_eq!(r.message.as_deref(), Some("boom"));
    assert!(r.data.is_none());
}

#[test]
fn status_codes_by_kind() {
    assert_eq!(AppError::ValidationError("v".into()).status_code(), 400);
    assert_eq!(AppError::AuthError("a".into()).status_code(), 401);
    assert_eq!(AppError::PaymentError("p".into()).status_code(), 402);
    assert_eq!(AppError::NotFound("n".into()).status_code(), 404);
    assert_eq!(AppError::MongoError.status_code(), 500);
    assert_eq!(AppError::MongoBsonError.status_code(), 500);
    assert_eq!(AppError::InternalError.status_code(), 500);
    assert_eq!(AppError::S3Error("s".into()).status_code(), 500);
}

#[test]
fn internal_detail_stays_hidden() {
    assert_eq!(AppError::MongoError.public_message(), "Database error");
    assert_eq!(AppError::MongoBsonError.public_message(), "Serialization error");
    assert_eq!(AppError::InternalError.public_message(), "Internal error");
    assert_eq!(AppError::S3Error("bucket eu-1 denied".into()).public_message(), "Storage error");
    assert_eq!(AppError::NotFound("Product not found".into()).public_message(), "Product not found");
    let (status, body) = AppError::AuthError("Invalid token".into()).to_response();
    assert_eq!(status, 401);
    assert_eq!(body.status, "error");
    assert_eq!(body.message.as_deref(), Some("Invalid token"));
    assert!(body.data.is_none());
}

#[test]
fn text_helpers() {
    assert!(contains_ignoring_case("Herbal Shampoo 200ml", "sHaMpOo"));
    assert!(!contains_ignoring_case("Herbal Soap", "shampoo"));
    assert!(contains_text("abc", ""));
    assert!(!contains_text("ab", "abc"));
    assert!(has_prefix("image/png", "image/"));
    assert!(!has_prefix("imag", "image/"));
    assert_eq!(strip_prefix("Bearer t", "Bearer "), Some("t"));
    assert_eq!(strip_prefix("Basic t", "Bearer "), None);
}
