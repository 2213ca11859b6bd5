use rustyhub::auth::Auth;
use rustyhub::client::{Client, Exchange, Response};
use rustyhub::error::Error;
use rustyhub::headers::Headers;
use rustyhub::miscellaneous::gitignore::get_gitignore_templates;
use rustyhub::utils::{request_endpoint, request_endpoint_with_headers};

fn delivered(status: u16, body: &str) -> Exchange {
    Exchange::Delivered(Response { status, headers: Headers::new(), body: body.to_string() })
}

#[test]
fn helper_returns_body_on_success() {
    let client = Client::new("my-agent", Auth::NoAuth);
    let script = vec![delivered(200, "{\"name\":\"Rust\"}")];
    let body = request_endpoint(&client, "/gitignore/templates/Rust".to_string(), &script).unwrap();
    assert_eq!(body, "{\"name\":\"Rust\"}");
}

#[test]
fn helper_passes_error_classification_through() {
    let client = Client::new("my-agent", Auth::NoAuth);
    let script = vec![delivered(404, "{\"message\":\"Not Found\"}")];
    let err = request_endpoint(&client, "/missing".to_string(), &script).unwrap_err();
    match err {
        Error::Github(e) => assert_eq!(e.message, "Not Found"),
        other => panic!("expected a structured error, got {:?}", other),
    }
}

#[test]
fn helper_accepts_header_overrides() {
    let client = Client::new("my-agent", Auth::NoAuth);
    let mut headers = Headers::new();
    headers.set("Accept", "application/vnd.github.v3.raw".to_string());
    headers.set("User-Agent", "my-agent".to_string());
    let script = vec![delivered(200, "raw text")];
    let body = request_endpoint_with_headers(&client, "/x".to_string(), Some(headers), &script)
        .unwrap();
    assert_eq!(body, "raw text");
}

#[test]
fn helper_is_idempotent_against_a_fixed_transport() {
    let client = Client::new("my-agent", Auth::NoAuth);
    let script = vec![delivered(200, "stable")];
    let first = request_endpoint(&client, "/zen".to_string(), &script);
    let second = request_endpoint(&client, "/zen".to_string(), &script);
    assert_eq!(first, second);
    assert_eq!(first.unwrap(), "stable");
}

#[test]
fn gitignore_templates_decode_into_strings() {
    let client = Client::new("my-agent", Auth::NoAuth);
    let script = vec![delivered(200, "[\"Actionscript\",\"Rust\",\"C\"]")];
    let templates = get_gitignore_templates(&client, &script).unwrap();
    assert_eq!(templates, vec!["Actionscript".to_string(), "Rust".to_string(), "C".to_string()]);
}

#[test]
fn gitignore_templates_of_wrong_shape_fail_to_parse() {
    let client = Client::new("my-agent", Auth::NoAuth);
    let script = vec![delivered(200, "{\"not\":\"a list\"}")];
    let err = get_gitignore_templates(&client, &script).unwrap_err();
    assert_eq!(err, Error::Parsing("{\"not\":\"a list\"}".to_string()));
}

#[test]
fn emojis_decode_with_empty_string_for_non_strings() {
    let client = Client::new("my-agent", Auth::NoAuth);
    let script = vec![delivered(200, "{\"plus1\":\"https://img/plus1\",\"odd\":7}")];
    let emojis = rustyhub::miscellaneous::emojis::get_emojis(&client, &script).unwrap().unwrap();
    assert_eq!(
        emojis,
        vec![
            ("odd".to_string(), String::new()),
            ("plus1".to_string(), "https://img/plus1".to_string()),
        ]
    );
}

#[test]
fn emojis_of_non_object_json_yield_nothing() {
    let client = Client::new("my-agent", Auth::NoAuth);
    let script = vec![delivered(200, "[1,2,3]")];
    assert_eq!(rustyhub::miscellaneous::emojis::get_emojis(&client, &script).unwrap(), None);
}

#[test]
fn emojis_of_invalid_json_fail_to_parse() {
    let client = Client::new("my-agent", Auth::NoAuth);
    let script = vec![delivered(200, "not json")];
    let err = rustyhub::miscellaneous::emojis::get_emojis(&client, &script).unwrap_err();
    assert_eq!(err, Error::Parsing("not json".to_string()));
}

#[test]
fn zen_scenario_returns_raw_body() {
    let client = Client::new("my-agent", Auth::NoAuth);
    let script = vec![delivered(200, "text")];
    let body = request_endpoint(&client, "/zen".to_string(), &script).unwrap();
    assert_eq!(body, "text");
}
