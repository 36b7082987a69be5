use shop_core::collections::default_collection_name;
use shop_core::error::AppError;
use shop_core::storage::{extension_for, key_from_url, new_object_key, object_key, public_url};

#[test]
fn extensions_by_content_type() {
    assert_eq!(extension_for("image/jpeg"), "jpg");
    assert_eq!(extension_for("image/jpg"), "jpg");
    assert_eq!(extension_for("image/png"), "png");
    assert_eq!(extension_for("image/gif"), "gif");
    assert_eq!(extension_for("image/webp"), "webp");
    assert_eq!(extension_for("image/tiff"), "jpg");
}

#[test]
fn keys_and_urls() {
    assert_eq!(object_key("products", "abc", "png"), "products/abc.png");
    assert_eq!(
        public_url("shop-media", "eu-west-1", "products/abc.png"),
        "https://shop-media.s3.eu-west-1.amazonaws.com/products/abc.png"
    );
}

#[test]
fn fresh_keys_are_distinct() {
    let a = new_object_key("products", "image/png");
    let b = new_object_key("products", "image/png");
    assert_ne!(a, b);
    assert!(a.starts_with("products/") && a.ends_with(".png"));
    assert_eq!(a.len(), "products/".len() + 36 + ".png".len());
}

#[test]
fn key_is_read_back_from_url() {
    let url = "https://shop-media.s3.eu-west-1.amazonaws.com/products/abc.png";
    assert_eq!(key_from_url(url, "shop-media").ok().as_deref(), Some("products/abc.png"));
    match key_from_url(url, "other-bucket") {
        Err(AppError::ValidationError(m)) => assert_eq!(m, "Invalid S3 URL"),
        _ => panic!("expected a validation error"),
    }
    assert_eq!(key_from_url("https://b.s3.r.amazonaws.com", "b").ok().as_deref(), Some(""));
    assert_eq!(key_from_url("https://b.s3.r.amazonaws.com/x/b/y", "b").ok().as_deref(), Some("x/"));
    assert!(key_from_url(url, "").is_err());
}

#[test]
fn default_collection_names() {
    assert_eq!(default_collection_name("MONGO_PRODUCTS_COLLECTION"), "products");
    assert_eq!(default_collection_name("MONGO_USERS_COLLECTION"), "users");
    assert_eq!(default_collection_name("MONGO_ORDERS_COLLECTION"), "orders");
    assert_eq!(default_collection_name("MONGO_CART_COLLECTION"), "cart");
    assert_eq!(default_collection_name("MONGO_REVIEWS_COLLECTION"), "reviews");
    assert_eq!(default_collection_name("ANYTHING_ELSE"), "default");
}
