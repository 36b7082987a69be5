use shop_core::error::AppError;
use shop_core::upload::{check_single_image, select_images, UploadPart, MAX_IMAGES, MAX_IMAGE_BYTES};

fn part(len: usize, content_type: Option<&str>) -> UploadPart {
    UploadPart { data: vec![7u8; len], content_type: content_type.map(|c| c.to_string()) }
}

fn validation<T>(r: Result<T, AppError>) -> String {
    match r {
        Err(AppError::ValidationError(m)) => m,
        _ => panic!("expected a validation error"),
    }
}

#[test]
fn six_megabyte_single_image_is_refused() {
    let msg = validation(check_single_image(vec![part(6 * 1024 * 1024, Some("image/png"))]));
    assert_eq!(msg, "File size must be less than 5MB");
}

#[test]
fn single_image_limits() {
    assert_eq!(MAX_IMAGE_BYTES, 5_242_880);
    assert!(check_single_image(vec![part(MAX_IMAGE_BYTES, Some("image/png"))]).is_ok());
    assert!(check_single_image(vec![part(MAX_IMAGE_BYTES + 1, Some("image/png"))]).is_err());
    assert_eq!(validation(check_single_image(vec![])), "No file provided");
    assert_eq!(
        validation(check_single_image(vec![part(1, Some("image/png")), part(2, Some("image/png"))])),
        "No file provided"
    );
    assert_eq!(
        validation(check_single_image(vec![part(10, Some("text/plain"))])),
        "Only image files are allowed"
    );
}

#[test]
fn single_image_defaults_to_jpeg() {
    let f = check_single_image(vec![part(3, None)]).ok().expect("accepted");
    assert_eq!(f.content_type, "image/jpeg");
    assert_eq!(f.data, vec![7u8; 3]);
}

#[test]
fn six_images_are_refused() {
    let parts: Vec<UploadPart> = (0..6).map(|_| part(100, Some("image/png"))).collect();
    assert_eq!(validation(select_images(parts)), "Maximum 5 images allowed");
    assert_eq!(MAX_IMAGES, 5);
}

#[test]
fn non_images_are_skipped() {
    let parts = vec![
        part(1, Some("text/plain")),
        part(2, Some("image/gif")),
        part(3, Some("application/pdf")),
        part(4, None),
    ];
    let files = select_images(parts).ok().expect("accepted");
    let seen: Vec<(usize, String)> = files.iter().map(|f| (f.data.len(), f.content_type.clone())).collect();
    assert_eq!(seen, vec![(2, "image/gif".to_string()), (4, "image/jpeg".to_string())]);
}

#[test]
fn batch_without_images_is_refused() {
    assert_eq!(validation(select_images(vec![])), "No files provided");
    assert_eq!(validation(select_images(vec![part(1, Some("text/csv"))])), "No files provided");
}

#[test]
fn oversized_image_aborts_batch() {
    let parts = vec![part(1, Some("image/png")), part(MAX_IMAGE_BYTES + 1, Some("image/png"))];
    assert_eq!(validation(select_images(parts)), "Each file must be less than 5MB");
    let parts = vec![part(MAX_IMAGE_BYTES + 1, Some("text/plain")), part(1, Some("image/png"))];
    assert!(select_images(parts).is_ok());
}

#[test]
fn five_images_pass() {
    let parts: Vec<UploadPart> = (0..5).map(|i| part(i + 1, Some("image/webp"))).collect();
    let files = select_images(parts).ok().expect("accepted");
    assert_eq!(files.len(), 5);
    assert_eq!(files[4].data.len(), 5);
}
