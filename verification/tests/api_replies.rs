use ull_fleet_server::api::extractors::ota_upload::{validate_content_type, OtaUpload};
use ull_fleet_server::api::handlers::{
    download_response, hello, index, index_html, upload_update, INDEX_HEAD, INDEX_TAIL,
};
use ull_fleet_server::api::header::{value_is_valid, value_reads_as_text};
use ull_fleet_server::config::{optional_env, setting_or, DEFAULT_LISTEN_ADDR};
use ull_fleet_server::digest::sha256_hex;
use ull_fleet_server::domain::ota::{stored_name_for, PendingUpdate, ServedUpdate, UploadUpdateError};
use ull_fleet_server::error::{AppError, Failure};
use ull_fleet_server::text::{decimal_string, hex_string};

fn pending(sha: &str) -> PendingUpdate {
    PendingUpdate {
        filename: "update-5.bin".to_string(),
        stored_path: "uploads/update-5.bin".to_string(),
        size_bytes: 1234,
        sha256_hex: sha.to_string(),
        created_at: "5".to_string(),
    }
}

fn unsupported(result: Result<(), AppError>) -> String {
    match result {
        Err(AppError::UnsupportedMediaType(message)) => message,
        other => panic!("expected an unsupported media type, got {other:?}"),
    }
}

#[test]
fn content_type_must_be_octet_stream() {
    assert!(validate_content_type(Some(b"application/octet-stream")).is_ok());
    assert!(validate_content_type(Some(b"Application/Octet-Stream")).is_ok());
    assert!(validate_content_type(Some(b"  application/octet-stream ; charset=x")).is_ok());
    assert!(validate_content_type(Some(b"\tapplication/octet-stream\t")).is_ok());
    assert_eq!(
        unsupported(validate_content_type(None)),
        "expected Content-Type: application/octet-stream"
    );
    assert_eq!(
        unsupported(validate_content_type(Some(b"text/plain"))),
        "expected Content-Type: application/octet-stream"
    );
    assert_eq!(
        unsupported(validate_content_type(Some(b"application/octet-streams"))),
        "expected Content-Type: application/octet-stream"
    );
    assert_eq!(
        unsupported(validate_content_type(Some(b"; application/octet-stream"))),
        "expected Content-Type: application/octet-stream"
    );
    assert_eq!(
        unsupported(validate_content_type(Some(b"application/octet-stream\xc3\xa9"))),
        "invalid Content-Type header"
    );
    let reply = AppError::UnsupportedMediaType("m".to_string()).into_reply();
    assert_eq!(reply.status, 415);
    assert_eq!(reply.body, "m");
}

#[test]
fn upload_body_must_not_be_empty() {
    match OtaUpload::from_body(Vec::new()) {
        Err(AppError::Validation(message)) => assert_eq!(message, "uploaded file is empty"),
        other => panic!("unexpected {other:?}"),
    }
    let upload = OtaUpload::from_body(vec![1, 2, 3]).expect("non-empty body is accepted");
    assert_eq!(upload.0, vec![1, 2, 3]);
}

#[test]
fn header_bytes_follow_http_rules() {
    assert!(value_reads_as_text(b"abc\t~ "));
    assert!(!value_reads_as_text(b"a\x7f"));
    assert!(!value_reads_as_text(b"\xff"));
    assert!(value_is_valid(b"abc\t\xff"));
    assert!(!value_is_valid(b"a\nb"));
    assert!(!value_is_valid(b"\x7f"));
}

#[test]
fn decimal_and_hex_rendering() {
    assert_eq!(decimal_string(0), "0");
    assert_eq!(decimal_string(9), "9");
    assert_eq!(decimal_string(10), "10");
    assert_eq!(decimal_string(1_700_000_000), "1700000000");
    assert_eq!(decimal_string(u64::MAX), u64::MAX.to_string());
    assert_eq!(hex_string(&[]), "");
    assert_eq!(hex_string(&[0x00, 0x0f, 0xa0, 0xff]), "000fa0ff");
}

#[test]
fn sha256_fingerprints() {
    assert_eq!(
        sha256_hex(b""),
        "e3b0c44298fc1c149afbf4c8996fb92427ae41e4649b934ca495991b7852b855"
    );
    assert_eq!(
        sha256_hex(b"abc"),
        "ba7816bf8f01cfea414140de5dae2223b00361a396177a9cb410ff61f20015ad"
    );
}

#[test]
fn stored_names_and_messages() {
    assert_eq!(stored_name_for(0), "update-0.bin");
    assert_eq!(stored_name_for(1_700_000_123), "update-1700000123.bin");
    let failure = Failure::plain("inner").context("middle").context("outer");
    assert_eq!(failure.message, "outer");
    assert_eq!(failure.detail, "outer: middle: inner");
}

#[test]
fn hello_route_greets() {
    assert_eq!(hello(), "hello from ull-fleet-server");
}

#[test]
fn index_page_shows_pending_image() {
    let none = index_html(None);
    assert!(none.starts_with("<!doctype html>"));
    assert_eq!(
        none,
        format!("{INDEX_HEAD}<p>No pending OTA image.</p>{INDEX_TAIL}")
    );
    let sha = "ab".repeat(32);
    let some = index_html(Some(&pending(&sha)));
    assert_eq!(
        some,
        format!(
            "{INDEX_HEAD}<p>Pending update: <code>update-5.bin</code> (1234 bytes, sha256 <code>{sha}</code>)</p>{INDEX_TAIL}"
        )
    );
    assert!(some.contains("<meta charset=\\\"utf-8\\\">"));
    assert!(some.ends_with("</html>"));
    assert!(some.contains("fetch('/api/upload', {"));
    match index(Err(Failure::plain("boom"))) {
        Err(AppError::Internal(failure)) => assert_eq!(failure, Failure::plain("boom")),
        other => panic!("unexpected {other:?}"),
    }
    assert_eq!(index(Ok(None)).expect("page"), none);
}

#[test]
fn upload_reply_confirms_or_reports() {
    let reply = upload_update(Ok(pending("00"))).expect("reply");
    assert_eq!(reply.status, 201);
    assert_eq!(reply.body, "stored pending OTA image update-5.bin (1234 bytes)");
    match upload_update(Err(UploadUpdateError::Unknown(Failure::plain("disk")))) {
        Err(AppError::Internal(failure)) => assert_eq!(failure.message, "disk"),
        other => panic!("unexpected {other:?}"),
    }
}

#[test]
fn download_refuses_fingerprint_unfit_for_a_header() {
    let served = ServedUpdate {
        pending: pending("bad\nvalue"),
        bytes: vec![1, 2],
    };
    match download_response(served) {
        Err(AppError::Internal(failure)) => {
            assert_eq!(failure.message, "failed to build x-application-image-sha256 header");
            assert_eq!(
                failure.detail,
                "failed to build x-application-image-sha256 header: failed to parse header value"
            );
        }
        other => panic!("unexpected {other:?}"),
    }
    let served = ServedUpdate {
        pending: pending("cafe"),
        bytes: vec![7; 300],
    };
    let image = download_response(served).expect("valid fingerprint");
    assert_eq!(image.content_length, "300");
    assert_eq!(image.image_sha256, "cafe");
}

#[test]
fn settings_prefer_runtime_then_build_time_then_default() {
    assert_eq!(
        optional_env(Some("1.2.3.4:1".to_string()), Some("x".to_string())),
        Some("1.2.3.4:1".to_string())
    );
    assert_eq!(
        optional_env(Some(String::new()), Some("x".to_string())),
        Some("x".to_string())
    );
    assert_eq!(optional_env(None, Some(String::new())), None);
    assert_eq!(setting_or(None, None, DEFAULT_LISTEN_ADDR), "0.0.0.0:3000");
    assert_eq!(setting_or(Some(String::new()), None, "fallback"), "fallback");
}
