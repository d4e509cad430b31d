use rust_wistia::error::RustWistiaError;
use rust_wistia::models::asset::Asset;
use rust_wistia::models::media::Media;
use rust_wistia::models::media_type::MediaType;
use rust_wistia::models::project::ProjectInfo;
use rust_wistia::models::status::MediaStatus;
use rust_wistia::models::thumbnail::Thumbnail;

fn asset(type_field: &str, url: &str) -> Asset {
    Asset {
        content_type: "video/mp4".to_string(),
        file_size: 123,
        type_field: type_field.to_string(),
        url: url.to_string(),
        height: 360,
        width: 640,
    }
}

fn media_with_assets(assets: Vec<Asset>) -> Media {
    Media {
        hashed_id: "abc1234567".to_string(),
        id: 42,
        name: "My Video".to_string(),
        type_field: MediaType::Video,
        created: "2012-10-26T16:47:09+00:00".to_string(),
        updated: "2012-10-26T16:47:10+00:00".to_string(),
        duration: Some("5.333".to_string()),
        status: MediaStatus::Ready,
        description: String::new(),
        progress: "1.0".to_string(),
        thumbnail: Thumbnail { url: "https://example.com/t.jpg".to_string(), width: 100, height: 60 },
        project: ProjectInfo { hashed_id: "p1".to_string(), id: 7, name: "P".to_string() },
        embed_code: String::new(),
        assets,
        section: None,
        archived: false,
    }
}

#[test]
fn test_asset_url_insecure_returns_literal_url() {
    let media = media_with_assets(vec![asset(
        "OriginalFile",
        "https://embed.wistia.com/deliveries/abc123.bin",
    )]);
    assert_eq!(
        media.asset_url_insecure(None).unwrap(),
        "https://embed.wistia.com/deliveries/abc123.bin"
    );
}

#[test]
fn test_asset_url_strips_bin_suffix() {
    let media = media_with_assets(vec![asset(
        "OriginalFile",
        "https://embed.wistia.com/deliveries/abc123.bin",
    )]);
    assert_eq!(
        media.asset_url(None).unwrap(),
        "https://embed-ssl.wistia.com/deliveries/abc123/file.mp4"
    );
    assert_eq!(
        media.source_url().unwrap(),
        "https://embed-ssl.wistia.com/deliveries/abc123/file.mp4"
    );
}

#[test]
fn test_asset_url_without_bin_suffix() {
    let media = media_with_assets(vec![asset(
        "Mp4Video",
        "https://embed.wistia.com/deliveries/deadbeef",
    )]);
    assert_eq!(
        media.asset_url(Some("Mp4Video")).unwrap(),
        "https://embed-ssl.wistia.com/deliveries/deadbeef/file.mp4"
    );
}

#[test]
fn test_asset_url_first_match_wins() {
    let media = media_with_assets(vec![
        asset("Mp4Video", "https://a/first"),
        asset("Mp4Video", "https://a/second"),
    ]);
    assert_eq!(media.asset_url_insecure(Some("Mp4Video")).unwrap(), "https://a/first");
}

#[test]
fn test_asset_not_found_carries_valid_types_in_order() {
    let media = media_with_assets(vec![
        asset("OriginalFile", "https://a/1"),
        asset("StillImageFile", "https://a/2"),
        asset("CoverImageFile", "https://a/3"),
    ]);
    let err = media.asset_url_insecure(Some("Mp4Video")).unwrap_err();
    match err {
        RustWistiaError::AssetNotFound { asset_type, video_id, valid_types } => {
            assert_eq!(asset_type, "Mp4Video");
            assert_eq!(video_id, "abc1234567");
            assert_eq!(valid_types, vec!["OriginalFile", "StillImageFile", "CoverImageFile"]);
        }
        other => panic!("expected AssetNotFound, got {other:?}"),
    }
}

#[test]
fn test_asset_not_found_on_empty_assets() {
    let media = media_with_assets(vec![]);
    let err = media.asset_url_insecure(None).unwrap_err();
    match err {
        RustWistiaError::AssetNotFound { asset_type, valid_types, .. } => {
            assert_eq!(asset_type, "OriginalFile");
            assert!(valid_types.is_empty());
        }
        other => panic!("expected AssetNotFound, got {other:?}"),
    }
}

#[test]
fn test_asset_url_fails_without_path_separator() {
    let media = media_with_assets(vec![asset("OriginalFile", "no-separator")]);
    let err = media.asset_url(None).unwrap_err();
    assert!(matches!(err, RustWistiaError::Unknown));
}
