use rustyhub::auth::Auth;
use rustyhub::client::{Client, Exchange, Response};
use rustyhub::error::Error;
use rustyhub::headers::Headers;

fn response_with_body(status: u16, body: &str) -> Response {
    Response { status, headers: Headers::new(), body: body.to_string() }
}

#[test]
fn not_found_with_structured_body_yields_github_error() {
    let body = "{\"message\":\"Not Found\",\"documentation_url\":\"https://developer.github.com/v3\"}";
    let client = Client::new("my-agent", Auth::NoAuth);
    let script = vec![Exchange::Delivered(response_with_body(404, body))];
    let err = client.get("/missing".to_string(), None, &script).unwrap_err();
    match err {
        Error::Github(e) => {
            assert_eq!(e.message, "Not Found");
            assert_eq!(e.documentation_url.as_deref(), Some("https://developer.github.com/v3"));
            assert!(e.errors.is_none());
        },
        other => panic!("expected a structured error, got {:?}", other),
    }
}

#[test]
fn not_found_with_malformed_body_yields_parsing_error() {
    let client = Client::new("my-agent", Auth::NoAuth);
    let script = vec![Exchange::Delivered(response_with_body(404, "<html>oops</html>"))];
    let err = client.get("/missing".to_string(), None, &script).unwrap_err();
    assert_eq!(err, Error::Parsing("<html>oops</html>".to_string()));
}

#[test]
fn unprocessable_entity_retains_field_level_errors() {
    let body = "{\"message\":\"Validation Failed\",\"errors\":[{\"resource\":\"Issue\",\"field\":\"title\",\"code\":\"missing_field\"}]}";
    let err = Client::get_error(&response_with_body(422, body)).unwrap();
    match err {
        Error::Github(e) => {
            assert_eq!(e.message, "Validation Failed");
            assert!(e.documentation_url.is_none());
            let entries = e.errors.unwrap();
            assert_eq!(entries.len(), 1);
            assert_eq!(entries[0].resource, "Issue");
            assert_eq!(entries[0].field, "title");
            assert_eq!(entries[0].code, "missing_field");
        },
        other => panic!("expected a structured error, got {:?}", other),
    }
}

#[test]
fn bad_request_with_wrong_shape_yields_parsing_error() {
    // Valid JSON, but not the structured error shape: no message field.
    let err = Client::get_error(&response_with_body(400, "{\"detail\":\"nope\"}")).unwrap();
    assert_eq!(err, Error::Parsing("{\"detail\":\"nope\"}".to_string()));
}

#[test]
fn non_error_statuses_are_not_classified() {
    assert!(Client::get_error(&response_with_body(200, "fine")).is_none());
    assert!(Client::get_error(&response_with_body(204, "")).is_none());
    assert!(Client::get_error(&response_with_body(500, "server error")).is_none());
}
