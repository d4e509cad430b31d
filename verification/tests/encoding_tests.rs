use rust_wistia::encoding::append_query;
use rust_wistia::encoding::encode_query;
use rust_wistia::models::update_request::UpdateMediaRequest;
use rust_wistia::models::upload_request::UploadRequest;

fn pairs(items: &[(&str, &str)]) -> Vec<(String, String)> {
    items.iter().map(|(k, v)| (k.to_string(), v.to_string())).collect()
}

#[test]
fn test_url_encoded_with_struct() {
    let meal = pairs(&[
        ("bread", "baguette"),
        ("cheese", "comté"),
        ("meat", "ham"),
        ("fat", "butter"),
    ]);

    assert_eq!(
        encode_query(&meal),
        "bread=baguette&cheese=comt%C3%A9&meat=ham&fat=butter"
    );
}

#[test]
fn test_encoding_matches_serde_urlencoded() {
    let cases: Vec<Vec<(String, String)>> = vec![
        pairs(&[("a", ""), ("b", "x y"), ("c", "*-._~")]),
        pairs(&[("key", "\"hello world!@#$?%&\""), ("контакт", "héllo")]),
        pairs(&[]),
    ];
    for case in cases {
        assert_eq!(
            encode_query(&case),
            serde_urlencoded::to_string(&case).unwrap()
        );
    }
}

#[test]
fn test_it_works() {
    let req = UploadRequest {
        access_token: "abc123".to_string(),
        url: None,
        project_id: None,
        name: None,
        description: None,
        contact_id: None,
    };

    assert_eq!(encode_query(&req.query_pairs()), "access_token=abc123");
}

#[test]
fn test_it_works_with_other_params() {
    let req = UploadRequest {
        access_token: "xyz123".to_string(),
        url: Some("https://test-url.com/my/path?key=\"hello world!@#$?%&\"&value=".to_string()),
        project_id: Some("abc321".to_string()),
        name: None,
        description: None,
        contact_id: Some("my contact <abc@xyz.org>".to_string()),
    };

    assert_eq!(encode_query(&req.query_pairs()), "access_token=xyz123&url=https%3A%2F%2Ftest-url.com%2Fmy%2Fpath%3Fkey%3D%22hello+world%21%40%23%24%3F%25%26%22%26value%3D&project_id=abc321&contact_id=my+contact+%3Cabc%40xyz.org%3E");
}

#[test]
fn test_update_request_query_pairs_only_name() {
    let req = UpdateMediaRequest::default().name("My Video");
    let pairs = req.query_pairs();
    assert_eq!(pairs.len(), 1);
    assert_eq!(pairs[0].0, "name");
    assert_eq!(pairs[0].1, "My Video");
    let query = encode_query(&pairs);
    assert_eq!(query, "name=My+Video");
    assert!(!query.contains("new_still_media_id"));
    assert!(!query.contains("description"));
}

#[test]
fn test_update_request_all_fields_ordered() {
    let req = UpdateMediaRequest::default()
        .description("d")
        .name("n")
        .new_still_media_id("s");
    assert_eq!(encode_query(&req.query_pairs()), "name=n&new_still_media_id=s&description=d");
}

#[test]
fn test_encode_query_empty_value() {
    assert_eq!(encode_query(&pairs(&[("a", "")])), "a=");
}

#[test]
fn test_append_query() {
    assert_eq!(
        append_query("https://h/p", &pairs(&[("a", "1"), ("b", "x y")])),
        "https://h/p?a=1&b=x+y"
    );
    assert_eq!(append_query("https://h/p", &pairs(&[])), "https://h/p");
}
