use image_resizer::error::{ErrorResponse, STATUS_INTERNAL_SERVER_ERROR, STATUS_NOT_FOUND};

#[test]
fn status_codes_are_the_usual_ones() {
    assert_eq!(STATUS_NOT_FOUND, 404);
    assert_eq!(STATUS_INTERNAL_SERVER_ERROR, 500);
}

#[test]
fn missing_image_is_answered_with_not_found() {
    let reply = ErrorResponse::ImageNotFoundError {}.handle();
    assert_eq!(reply.status, 404);
    assert!(reply.headers.is_empty());
    assert_eq!(reply.body, b"Image not found.");
}

#[test]
fn miss_in_a_cache_tier_is_answered_like_a_missing_image() {
    let reply = ErrorResponse::ImageNotFoundInCacheError {}.handle();
    assert_eq!(reply.status, 404);
    assert!(reply.headers.is_empty());
    assert_eq!(reply.body, b"Image not found.");
}

#[test]
fn image_that_does_not_decode_is_a_server_error() {
    let reply = ErrorResponse::ImageDecodeError {}.handle();
    assert_eq!(reply.status, 500);
    assert!(reply.headers.is_empty());
    assert_eq!(reply.body, b"Image could not be decoded.");
}

#[test]
fn image_that_cannot_be_written_is_a_server_error() {
    let reply = ErrorResponse::ImageWriteError {}.handle();
    assert_eq!(reply.status, 500);
    assert!(reply.headers.is_empty());
    assert_eq!(reply.body, b"Image could not be written.");
}

#[test]
fn unreachable_origin_is_a_server_error() {
    let reply = ErrorResponse::UpstreamUnavailableError {}.handle();
    assert_eq!(reply.status, 500);
    assert!(reply.headers.is_empty());
    assert_eq!(reply.body, b"Image could not be fetched.");
}

#[test]
fn errors_describe_themselves() {
    assert_eq!(ErrorResponse::ImageNotFoundError {}.to_string(), "Image not found.");
    assert_eq!(ErrorResponse::ImageNotFoundInCacheError {}.to_string(), "Image not found in cache.");
    assert_eq!(ErrorResponse::ImageDecodeError {}.to_string(), "Image could not be decoded.");
    assert_eq!(ErrorResponse::ImageWriteError {}.to_string(), "Image could not be written.");
    assert_eq!(
        ErrorResponse::UpstreamUnavailableError {}.to_string(),
        "Image could not be fetched."
    );
}
