use rust_wistia::error::RustWistiaError;
use rust_wistia::models::decode::media_info_from_json;
use rust_wistia::models::download_asset::DownloadAssetRequest;
use rust_wistia::models::media_type::MediaType;
use rust_wistia::models::status::MediaStatus;
use rust_wistia::utils::is_default;

#[test]
fn test_media_info_from_json() {
    let body = r#"{
      "hashed_id": "abc1234567",
      "id": 42,
      "name": "Renamed",
      "type": "Video",
      "created": "2012-10-26T16:47:09+00:00",
      "updated": "2012-10-26T16:47:10+00:00",
      "duration": null,
      "status": "processing",
      "description": "d",
      "progress": 0.25,
      "thumbnail": {"url": "t", "width": 100, "height": 60},
      "section": "intro"
    }"#;
    let info = media_info_from_json(body).unwrap();
    assert_eq!(info.hashed_id, "abc1234567");
    assert_eq!(info.name, "Renamed");
    assert_eq!(info.type_field, MediaType::Video);
    assert_eq!(info.status, MediaStatus::Processing);
    assert_eq!(info.duration, None);
    assert_eq!(info.description, "d");
    assert_eq!(info.progress, "0.25");
    assert_eq!(info.section, Some("intro".to_string()));
}

#[test]
fn test_media_info_requires_description() {
    let body = r#"{
      "hashed_id": "h", "id": 1, "name": "n", "type": "Video",
      "created": "c", "updated": "u", "status": "queued", "progress": 0.0,
      "thumbnail": {"url": "t", "width": 1, "height": 1}
    }"#;
    assert!(matches!(
        media_info_from_json(body),
        Err(RustWistiaError::SerdeJson(_))
    ));
}

#[test]
fn test_download_asset_request_builders() {
    let req = DownloadAssetRequest::from_media_id("abc1234567")
        .asset_type("OriginalFile")
        .file_path("./my-file.mp4");
    assert_eq!(req.media_id, Some("abc1234567".to_string()));
    assert!(req.media.is_none());
    assert_eq!(req.asset_type, Some("OriginalFile".to_string()));
    assert_eq!(req.file_path, Some("./my-file.mp4".to_string()));
}

#[test]
fn test_is_default() {
    assert!(is_default(&0u64));
    assert!(!is_default(&3u64));
    assert!(is_default(&String::new()));
    assert!(!is_default(&"x".to_string()));
}
