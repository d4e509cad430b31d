use rust_wistia::auth::auth_token;

#[test]
fn it_works() {
    let result = 2 + 2;
    assert_eq!(result, 4);
}

#[test]
fn test_auth_token_adds_bearer_prefix() {
    assert_eq!(auth_token("abc123"), "Bearer abc123");
}

#[test]
fn test_auth_token_keeps_existing_prefix() {
    assert_eq!(auth_token("Bearer abc123"), "Bearer abc123");
}
