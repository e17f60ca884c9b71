use agenthub::api_error::ApiErrorKind;
use agenthub::uploads::{
    accept_decoded_upload,
    canonical_user_actor_id, classify_upload_failure, decode_upload_bytes, direct_write_headers,
    map_upload_error, normalize_session_ttl, normalize_upload_content_type, parse_upload_kind,
    validate_inline_upload, validate_session_request, ObjectUploadKind, UploadRequest,
    UploadSessionPrepareRequest, MAX_INLINE_UPLOAD_BYTES,
};
use base64::Engine as _;
use base64::engine::general_purpose::STANDARD;

#[test]
fn decode_upload_bytes_rejects_payloads_above_inline_limit() {
    let encoded = STANDARD.encode(vec![0_u8; MAX_INLINE_UPLOAD_BYTES + 1]);
    let err = decode_upload_bytes(&encoded).expect_err("oversized inline payload should fail");
    assert_eq!(err.status(), 413);
}

#[test]
fn decode_upload_bytes_decodes_trimmed_standard_base64() {
    assert_eq!(decode_upload_bytes("  aGVsbG8=\n").unwrap(), b"hello".to_vec());
    let limit = STANDARD.encode(vec![7_u8; MAX_INLINE_UPLOAD_BYTES]);
    assert_eq!(decode_upload_bytes(&limit).unwrap().len(), MAX_INLINE_UPLOAD_BYTES);
    let err = decode_upload_bytes("not base64!").unwrap_err();
    assert_eq!(err.kind, ApiErrorKind::BadRequest);
    assert_eq!(err.message, "bytes_base64 must be valid standard base64");
}

#[test]
fn content_type_is_required_and_lower_cased() {
    assert_eq!(normalize_upload_content_type(" Image/PNG ").unwrap(), "image/png");
    let err = normalize_upload_content_type("   ").unwrap_err();
    assert_eq!(err.status(), 400);
    assert_eq!(err.message, "content_type is required");
}

#[test]
fn upload_kind_accepts_object_or_image() {
    assert_eq!(parse_upload_kind(" object ").unwrap(), ObjectUploadKind::Object);
    assert_eq!(parse_upload_kind("image").unwrap(), ObjectUploadKind::Image);
    let err = parse_upload_kind("Image").unwrap_err();
    assert_eq!(err.message, "object_kind must be either object or image");
}

#[test]
fn session_ttl_defaults_and_bounds() {
    assert_eq!(normalize_session_ttl(None).unwrap(), 900);
    assert_eq!(normalize_session_ttl(Some(1)).unwrap(), 1);
    assert_eq!(normalize_session_ttl(Some(86400)).unwrap(), 86400);
    let err = normalize_session_ttl(Some(0)).unwrap_err();
    assert_eq!(err.message, "ttl_seconds must be between 1 and 86400");
    assert!(normalize_session_ttl(Some(86401)).is_err());
    assert!(normalize_session_ttl(Some(-5)).is_err());
}

#[test]
fn upload_actor_id_is_prefixed() {
    assert_eq!(canonical_user_actor_id("42"), "user:42");
}

#[test]
fn upload_failures_are_classified_by_message() {
    let bad = classify_upload_failure("object size mismatch: expected 3");
    assert_eq!(bad.kind, ApiErrorKind::BadRequest);
    assert_eq!(bad.message, "object size mismatch: expected 3");
    assert_eq!(classify_upload_failure("upload session expired").kind, ApiErrorKind::BadRequest);
    assert_eq!(classify_upload_failure("session does not belong to scope").kind, ApiErrorKind::Conflict);
    assert_eq!(classify_upload_failure("session is not cancelable").kind, ApiErrorKind::Conflict);
    assert_eq!(classify_upload_failure("disk full").kind, ApiErrorKind::Internal);
    let err = map_upload_error(&anyhow::Error::msg("invalid part_number 0"));
    assert_eq!(err.kind, ApiErrorKind::BadRequest);
    assert_eq!(err.message, "invalid part_number 0");
}

#[test]
fn direct_write_headers_keep_order() {
    let headers = direct_write_headers(vec![
        ("content-type".to_string(), "image/png".to_string()),
        ("x-amz-acl".to_string(), "private".to_string()),
    ]);
    assert_eq!(headers.len(), 2);
    assert_eq!(headers[0].name, "content-type");
    assert_eq!(headers[0].value, "image/png");
    assert_eq!(headers[1].name, "x-amz-acl");
    assert_eq!(headers[1].value, "private");
}

fn session_request(content_type: &str, kind: &str, ttl: Option<i64>) -> UploadSessionPrepareRequest {
    UploadSessionPrepareRequest {
        file_name: "a.png".to_string(),
        content_type: content_type.to_string(),
        object_kind: kind.to_string(),
        expected_size_bytes: 3,
        expected_sha256: None,
        ttl_seconds: ttl,
    }
}

#[test]
fn session_requests_are_checked_in_order() {
    assert_eq!(
        validate_session_request(&session_request(" Image/PNG ", " image ", None)).unwrap(),
        ("image/png".to_string(), ObjectUploadKind::Image, 900)
    );
    let err = validate_session_request(&session_request(" ", "bogus", Some(0))).unwrap_err();
    assert_eq!(err.status(), 400);
    assert_eq!(err.message, "content_type is required");
    let err = validate_session_request(&session_request("text/plain", "bogus", Some(0))).unwrap_err();
    assert_eq!(err.message, "object_kind must be either object or image");
    let err = validate_session_request(&session_request("text/plain", "object", Some(0))).unwrap_err();
    assert_eq!(err.message, "ttl_seconds must be between 1 and 86400");
    assert_eq!(
        validate_session_request(&session_request("text/plain", "object", Some(86400))).unwrap().2,
        86400
    );
}

fn inline_upload(content_type: &str, bytes: &str) -> UploadRequest {
    UploadRequest {
        file_name: "a.txt".to_string(),
        content_type: content_type.to_string(),
        bytes_base64: bytes.to_string(),
        expected_size_bytes: None,
        expected_sha256: None,
    }
}

#[test]
fn inline_uploads_check_type_then_payload() {
    assert_eq!(
        validate_inline_upload(&inline_upload("Text/Plain", "aGVsbG8=")).unwrap(),
        ("text/plain".to_string(), b"hello".to_vec())
    );
    let err = validate_inline_upload(&inline_upload("", "!!!")).unwrap_err();
    assert_eq!(err.message, "content_type is required");
    let err = validate_inline_upload(&inline_upload("text/plain", "!!!")).unwrap_err();
    assert_eq!(err.status(), 400);
    assert_eq!(err.message, "bytes_base64 must be valid standard base64");
}

#[test]
fn normalized_content_types_are_stable() {
    for raw in ["  Image/PNG\t", "text/plain", "APPLICATION/JSON; Charset=UTF-8 "] {
        let once = normalize_upload_content_type(raw).unwrap();
        assert_eq!(normalize_upload_content_type(&once).unwrap(), once);
    }
}

#[test]
fn decoded_payloads_are_checked_for_size() {
    assert_eq!(accept_decoded_upload(Some(b"abc".to_vec())).unwrap(), b"abc".to_vec());
    assert_eq!(accept_decoded_upload(Some(vec![1_u8; MAX_INLINE_UPLOAD_BYTES])).unwrap().len(), MAX_INLINE_UPLOAD_BYTES);
    let err = accept_decoded_upload(Some(vec![0_u8; MAX_INLINE_UPLOAD_BYTES + 1])).unwrap_err();
    assert_eq!(err.status(), 413);
    assert_eq!(err.message, "inline uploads are limited to 8388608 bytes");
    let err = accept_decoded_upload(None).unwrap_err();
    assert_eq!(err.status(), 400);
    assert_eq!(err.message, "bytes_base64 must be valid standard base64");
}
