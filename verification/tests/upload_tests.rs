use rust_wistia::data::get_media_url;
use rust_wistia::data::update_media_url;
use rust_wistia::models::update_request::UpdateMediaRequest;
use rust_wistia::models::upload_request::UploadFileRequest;
use rust_wistia::models::upload_request::UploadRequest;
use rust_wistia::models::upload_request::UploadStreamRequest;
use rust_wistia::models::upload_request::UploadUrlRequest;
use rust_wistia::upload::build_url;
use rust_wistia::upload::plan_file_upload;
use rust_wistia::upload::plan_stream_upload;
use rust_wistia::upload::plan_url_upload;
use rust_wistia::upload::FileSource;
use rust_wistia::upload::UploadBody;

#[test]
fn test_build_url_token_only() {
    let params = UploadRequest {
        access_token: "abc123".to_string(),
        url: None,
        project_id: None,
        name: None,
        description: None,
        contact_id: None,
    };
    assert_eq!(
        build_url(params).unwrap(),
        "https://upload.wistia.com?access_token=abc123"
    );
}

#[test]
fn test_url_upload_plan_encodes_description_into_body() {
    let req = UploadUrlRequest::new("https://example.com/video.mp4")
        .name("My Video")
        .description("a long description");
    let plan = plan_url_upload("tok", &req);
    assert_eq!(plan.url, "https://upload.wistia.com");
    match plan.body {
        UploadBody::FormUrlEncoded(body) => {
            assert_eq!(
                body,
                "access_token=tok&url=https%3A%2F%2Fexample.com%2Fvideo.mp4&name=My+Video&description=a+long+description"
            );
        }
        other => panic!("expected a form-encoded body, got {other:?}"),
    }
}

#[test]
fn test_file_upload_plan_keeps_description_out_of_query() {
    let req = UploadFileRequest::new("video.mp4")
        .project_id("p1")
        .description("notes")
        .contact_id("c9");
    let plan = plan_file_upload("tok", &req);
    assert_eq!(
        plan.url,
        "https://upload.wistia.com?access_token=tok&project_id=p1&contact_id=c9"
    );
    match plan.body {
        UploadBody::Multipart { file, description } => {
            assert_eq!(file, FileSource::Path("video.mp4".to_string()));
            assert_eq!(description, Some("notes".to_string()));
        }
        other => panic!("expected a multipart body, got {other:?}"),
    }
}

#[test]
fn test_stream_upload_plan_uses_file_name() {
    let req = UploadStreamRequest::new("file.mp4").name("N");
    let plan = plan_stream_upload("tok", &req);
    assert_eq!(
        plan.url,
        "https://upload.wistia.com?access_token=tok&name=N"
    );
    match plan.body {
        UploadBody::Multipart { file, description } => {
            assert_eq!(file, FileSource::Stream { file_name: "file.mp4".to_string() });
            assert_eq!(description, None);
        }
        other => panic!("expected a multipart body, got {other:?}"),
    }
}

#[test]
fn test_upload_file_request_new_sets_nothing_else() {
    let req = UploadFileRequest::new("a/b.mov");
    assert_eq!(req.file_path, "a/b.mov");
    assert_eq!(req.project_id, None);
    assert_eq!(req.name, None);
    assert_eq!(req.description, None);
    assert_eq!(req.contact_id, None);
}

#[test]
fn test_update_media_url() {
    let mut req = UpdateMediaRequest::default().name("New Name");
    req.id = "abc1234567".to_string();
    assert_eq!(
        update_media_url(&req),
        "https://api.wistia.com/v1/medias/abc1234567.json?name=New+Name"
    );

    let mut empty = UpdateMediaRequest::default();
    empty.id = "abc1234567".to_string();
    assert_eq!(
        update_media_url(&empty),
        "https://api.wistia.com/v1/medias/abc1234567.json"
    );
    assert_eq!(
        get_media_url("abc1234567"),
        "https://api.wistia.com/v1/medias/abc1234567.json"
    );
}
