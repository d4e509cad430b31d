use rust_wistia::error::RustWistiaError;
use rust_wistia::status::raise_for_status;
use rust_wistia::utils::host_with_path;

const URL: &str = "https://api.wistia.com/v1/medias/abc123.json?name=x";

#[test]
fn test_success_statuses_pass_whatever_the_body() {
    for status in [100u16, 200, 204, 301, 399, 600, 999, 0] {
        let r = raise_for_status(URL, status, "{\"error\": \"ignored\"}");
        assert!(r.is_ok(), "status {status} should pass");
    }
}

#[test]
fn test_client_error_reason() {
    let err = raise_for_status(URL, 404, "").unwrap_err();
    match err {
        RustWistiaError::Request { status_code, reason, .. } => {
            assert_eq!(status_code, 404);
            assert_eq!(
                reason,
                "404 Client Error: Not Found for url: api.wistia.com/v1/medias/abc123.json"
            );
        }
        other => panic!("expected a Request error, got {other:?}"),
    }
}

#[test]
fn test_server_error_reason() {
    let err = raise_for_status("https://upload.wistia.com?access_token=t", 500, "").unwrap_err();
    match err {
        RustWistiaError::Request { status_code, reason, .. } => {
            assert_eq!(status_code, 500);
            assert_eq!(
                reason,
                "500 Server Error: Internal Server Error for url: upload.wistia.com/"
            );
        }
        other => panic!("expected a Request error, got {other:?}"),
    }
}

#[test]
fn test_unknown_phrase_for_unassigned_code() {
    let err = raise_for_status(URL, 599, "").unwrap_err();
    match err {
        RustWistiaError::Request { reason, .. } => {
            assert_eq!(
                reason,
                "599 Server Error: Unknown for url: api.wistia.com/v1/medias/abc123.json"
            );
        }
        other => panic!("expected a Request error, got {other:?}"),
    }
}

#[test]
fn test_error_body_decoded() {
    let body = "{\"error\": \"Media not found\", \"code\": \"not_found\"}";
    let err = raise_for_status(URL, 404, body).unwrap_err();
    match err {
        RustWistiaError::Request { error, .. } => {
            assert_eq!(error.message, "Media not found");
            assert_eq!(error.code, Some("not_found".to_string()));
            assert_eq!(error.detail, None);
        }
        other => panic!("expected a Request error, got {other:?}"),
    }
}

#[test]
fn test_error_body_raw_fallback() {
    let err = raise_for_status(URL, 502, "  Bad Gateway page \n").unwrap_err();
    match err {
        RustWistiaError::Request { error, .. } => {
            assert_eq!(error.message, "Bad Gateway page");
            assert_eq!(error.code, None);
            assert_eq!(error.detail, None);
        }
        other => panic!("expected a Request error, got {other:?}"),
    }
}

#[test]
fn test_error_body_wrong_shape_falls_back() {
    let body = "{\"error\": 5}";
    let err = raise_for_status(URL, 404, body).unwrap_err();
    match err {
        RustWistiaError::Request { error, .. } => {
            assert_eq!(error.message, "{\"error\": 5}");
            assert_eq!(error.code, None);
            assert_eq!(error.detail, None);
        }
        other => panic!("expected a Request error, got {other:?}"),
    }
}

#[test]
fn test_host_without_path() {
    let url = "https://google.com";
    let new_url = host_with_path(url).unwrap();

    assert_eq!(new_url, "google.com/");
}

#[test]
fn test_host_and_path() {
    let url = "https://google.com/my/path?key=value&key2=value2";
    let new_url = host_with_path(url).unwrap();

    assert_eq!(new_url, "google.com/my/path");
}

#[test]
fn test_host_strips_userinfo_and_port() {
    let url = "https://user@host.example.com:8080/p/q?x=1#frag";
    assert_eq!(host_with_path(url).unwrap(), "host.example.com/p/q");
}
