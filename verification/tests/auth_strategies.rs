use rustyhub::auth::Auth;
use rustyhub::client::Client;
use rustyhub::encoding::form_urlencode;
use rustyhub::headers::Headers;

#[test]
fn no_auth_changes_nothing() {
    let mut headers = Headers::new();
    let url = Client::set_request_authentication(
        &Auth::NoAuth,
        "https://api.github.com/zen".to_string(),
        &mut headers,
    );
    assert_eq!(url, "https://api.github.com/zen");
    assert_eq!(headers.len(), 0);
}

#[test]
fn bearer_token_sets_authorization_and_no_query() {
    let mut headers = Headers::new();
    headers.set("Accept", "application/vnd.github.v3+json".to_string());
    let url = Client::set_request_authentication(
        &Auth::OAuth2Token("abc123".to_string()),
        "https://api.github.com/zen".to_string(),
        &mut headers,
    );
    assert_eq!(url, "https://api.github.com/zen");
    assert_eq!(headers.get("Authorization").unwrap().as_str(), "Bearer abc123");
    // The other header fields are untouched.
    assert_eq!(headers.get("Accept").unwrap().as_str(), "application/vnd.github.v3+json");
    assert_eq!(headers.len(), 2);
}

#[test]
fn client_credentials_appends_exactly_both_pairs() {
    let mut headers = Headers::new();
    let url = Client::set_request_authentication(
        &Auth::OAuth2KeySecret("my-id".to_string(), "my-secret".to_string()),
        "https://api.github.com/user".to_string(),
        &mut headers,
    );
    assert_eq!(url, "https://api.github.com/user?client_id=my-id&client_secret=my-secret");
    // No Authorization header is set, and nothing else changed.
    assert!(headers.get("Authorization").is_none());
    assert_eq!(headers.len(), 0);
}

#[test]
fn client_credentials_extends_an_existing_query() {
    let mut headers = Headers::new();
    let url = Client::set_request_authentication(
        &Auth::OAuth2KeySecret("id".to_string(), "sec".to_string()),
        "https://api.github.com/user?page=2".to_string(),
        &mut headers,
    );
    assert_eq!(url, "https://api.github.com/user?page=2&client_id=id&client_secret=sec");
}

#[test]
fn client_credentials_values_are_form_urlencoded() {
    let mut headers = Headers::new();
    let url = Client::set_request_authentication(
        &Auth::OAuth2KeySecret("my id".to_string(), "s&c=r/t".to_string()),
        "https://host/x".to_string(),
        &mut headers,
    );
    assert_eq!(url, "https://host/x?client_id=my+id&client_secret=s%26c%3Dr%2Ft");
}

#[test]
fn basic_auth_sets_base64_credentials() {
    let mut headers = Headers::new();
    let url = Client::set_request_authentication(
        &Auth::Basic("user".to_string(), "pass".to_string(), None),
        "https://api.github.com/user".to_string(),
        &mut headers,
    );
    assert_eq!(url, "https://api.github.com/user");
    assert_eq!(headers.get("Authorization").unwrap().as_str(), "Basic dXNlcjpwYXNz");
}

#[test]
fn basic_auth_with_otp_appends_query_parameter() {
    let mut headers = Headers::new();
    let url = Client::set_request_authentication(
        &Auth::Basic("user".to_string(), "pass".to_string(), Some("123456".to_string())),
        "https://api.github.com/user".to_string(),
        &mut headers,
    );
    assert_eq!(url, "https://api.github.com/user?X-GitHub-OTP=123456");
    assert_eq!(headers.get("Authorization").unwrap().as_str(), "Basic dXNlcjpwYXNz");
}

#[test]
fn form_urlencode_keeps_unreserved_bytes() {
    assert_eq!(form_urlencode("AZaz09*-._"), "AZaz09*-._");
}

#[test]
fn form_urlencode_escapes_reserved_bytes() {
    assert_eq!(form_urlencode("a b"), "a+b");
    assert_eq!(form_urlencode("a/b&c=d?e"), "a%2Fb%26c%3Dd%3Fe");
    assert_eq!(form_urlencode(""), "");
}

#[test]
fn form_urlencode_escapes_utf8_bytes() {
    assert_eq!(form_urlencode("é"), "%C3%A9");
    assert_eq!(form_urlencode("日"), "%E6%97%A5");
}

#[test]
fn headers_set_replaces_and_get_finds() {
    let mut headers = Headers::new();
    headers.set("Accept", "one".to_string());
    headers.set("Other", "kept".to_string());
    headers.set("Accept", "two".to_string());
    assert_eq!(headers.get("Accept").unwrap().as_str(), "two");
    assert_eq!(headers.get("Other").unwrap().as_str(), "kept");
    assert_eq!(headers.len(), 2);
    assert!(headers.get("Missing").is_none());
}

#[test]
fn headers_set_removes_the_old_pair_and_pushes_the_new_one() {
    let mut headers = Headers::new();
    headers.set("Accept", "one".to_string());
    headers.set("Other", "kept".to_string());
    headers.set("Accept", "two".to_string());
    let expected = vec![
        ("Other".to_string(), "kept".to_string()),
        ("Accept".to_string(), "two".to_string()),
    ];
    assert_eq!(headers.all(), &expected);
}

#[test]
fn bearer_token_on_empty_headers_yields_exactly_one_pair() {
    let mut headers = Headers::new();
    let url = Client::set_request_authentication(
        &Auth::OAuth2Token("abc123".to_string()),
        "https://api.github.com/zen".to_string(),
        &mut headers,
    );
    assert_eq!(url, "https://api.github.com/zen");
    let expected = vec![("Authorization".to_string(), "Bearer abc123".to_string())];
    assert_eq!(headers.all(), &expected);
}
