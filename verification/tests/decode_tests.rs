use rust_wistia::error::RustWistiaError;
use rust_wistia::models::decode::media_from_json;
use rust_wistia::models::decode::upload_response_from_json;
use rust_wistia::models::decode::wistia_error_from_raw;
use rust_wistia::models::status::MediaStatus;
use rust_wistia::models::media_type::MediaType;
use rust_wistia::models::upload_response::empty_string_is_none;

/// The documented example response of the Upload API.
const UPLOAD_EXAMPLE: &str = r#"
{
  "id": 2208087,
  "account_id": 123456789,
  "name": "dramatic_squirrel.mp4",
  "description": "",
  "type": "Video",
  "created": "2012-10-26T16:47:09+00:00",
  "updated": "2012-10-26T16:47:10+00:00",
  "duration": 5.333000183105469,
  "hashed_id": "gn69c10tqw",
  "progress": 0.0,
  "thumbnail":
  {
    "url": "http://embed.wistia.com/deliveries/ffbada01610466e66f67a5dbbf473ed6574a6405.jpg?image_crop_resized=100x60",
    "width": 100,
    "height": 60
  }
}
"#;

#[test]
fn test_deserialize_upload_response_works() {
    let resp = upload_response_from_json(UPLOAD_EXAMPLE).unwrap();

    assert_eq!(resp.name, "dramatic_squirrel.mp4");
    assert_eq!(resp.description, None);
    assert_eq!(resp.status, MediaStatus::Queued);
    assert_eq!(resp.media_type, MediaType::Video);
}

#[test]
fn test_upload_response_fields() {
    let resp = upload_response_from_json(UPLOAD_EXAMPLE).unwrap();
    assert_eq!(resp.id, 2208087);
    assert_eq!(resp.account_id, 123456789);
    assert_eq!(resp.hashed_id, "gn69c10tqw");
    assert_eq!(resp.duration, "5.333000183105469");
    assert_eq!(resp.progress, "0.0");
    assert_eq!(resp.thumbnail.width, 100);
    assert_eq!(resp.thumbnail.height, 60);
}

#[test]
fn test_upload_response_explicit_status_and_description() {
    let body = r#"{
      "id": 1, "account_id": 2, "name": "n", "description": "a note",
      "type": "Audio", "created": "c", "updated": "u",
      "hashed_id": "h", "progress": 0.5, "status": "ready",
      "thumbnail": {"url": "t", "width": 1, "height": 2}
    }"#;
    let resp = upload_response_from_json(body).unwrap();
    assert_eq!(resp.description, Some("a note".to_string()));
    assert_eq!(resp.status, MediaStatus::Ready);
    assert_eq!(resp.duration, "0");
}

#[test]
fn test_upload_response_invalid_json_is_serde_error() {
    let err = upload_response_from_json("not json at all").unwrap_err();
    assert!(matches!(err, RustWistiaError::SerdeJson(_)));
}

#[test]
fn test_upload_response_missing_field_is_serde_error() {
    let err = upload_response_from_json("{\"id\": 1}").unwrap_err();
    assert!(matches!(err, RustWistiaError::SerdeJson(_)));
}

#[test]
fn test_empty_string_is_none() {
    assert_eq!(empty_string_is_none(String::new()), None);
    assert_eq!(empty_string_is_none("x".to_string()), Some("x".to_string()));
}

#[test]
fn test_media_status_default_is_queued() {
    assert_eq!(MediaStatus::default(), MediaStatus::Queued);
}

#[test]
fn test_media_from_json() {
    let body = r#"{
      "hashed_id": "abc1234567",
      "id": 42,
      "name": "My Video",
      "type": "Video",
      "created": "2012-10-26T16:47:09+00:00",
      "updated": "2012-10-26T16:47:10+00:00",
      "duration": 5.125,
      "status": "ready",
      "progress": 1.0,
      "thumbnail": {"url": "t", "width": 100, "height": 60},
      "project": {"hashed_id": "p1", "id": 7, "name": "P"},
      "assets": [
        {"contentType": "video/mp4", "fileSize": 123,
         "type": "OriginalFile", "url": "https://embed.wistia.com/deliveries/abc123.bin",
         "height": 360, "width": 640},
        {"contentType": "audio/mp3", "fileSize": 9,
         "type": "AlternateAudioFile", "url": "https://a/alt"}
      ],
      "section": null
    }"#;
    let media = media_from_json(body).unwrap();
    assert_eq!(media.hashed_id, "abc1234567");
    assert_eq!(media.type_field, MediaType::Video);
    assert_eq!(media.status, MediaStatus::Ready);
    assert_eq!(media.duration, Some("5.125".to_string()));
    assert_eq!(media.description, "");
    assert_eq!(media.embed_code, "");
    assert!(!media.archived);
    assert_eq!(media.section, None);
    assert_eq!(media.assets.len(), 2);
    assert_eq!(media.assets[0].type_field, "OriginalFile");
    assert_eq!(media.assets[1].height, 0);
    assert_eq!(media.assets[1].width, 0);
    assert_eq!(
        media.asset_url(None).unwrap(),
        "https://embed-ssl.wistia.com/deliveries/abc123/file.mp4"
    );
}

#[test]
fn test_media_from_json_missing_status_fails() {
    let body = r#"{
      "hashed_id": "h", "id": 1, "name": "n", "type": "Video",
      "created": "c", "updated": "u",
      "thumbnail": {"url": "t", "width": 1, "height": 1},
      "project": {"hashed_id": "p", "id": 1, "name": "P"},
      "assets": []
    }"#;
    assert!(matches!(media_from_json(body), Err(RustWistiaError::SerdeJson(_))));
}

#[test]
fn test_wistia_error_from_raw_trims() {
    let e = wistia_error_from_raw("  oops \n");
    assert_eq!(e.message, "oops");
    assert_eq!(e.code, None);
    assert_eq!(e.detail, None);
}
