use rustyhub::auth::Auth;
use rustyhub::client::{dispatch, Client, Exchange, Method, Response};
use rustyhub::error::Error;
use rustyhub::headers::Headers;

fn plain_response(status: u16, body: &str) -> Response {
    Response { status, headers: Headers::new(), body: body.to_string() }
}

fn redirect_response(status: u16, location: &str) -> Response {
    let mut headers = Headers::new();
    headers.set("Location", location.to_string());
    Response { status, headers, body: String::new() }
}

#[test]
fn client_new() {
    let client = Client::new("rustyhub-test/0.0.0", Auth::OAuth2Token("test-token".to_string()));
    assert!(client.api_url == String::from("https://api.github.com"));
    assert!(client.user_agent == String::from("rustyhub-test/0.0.0"));
    assert!(client.authentication == Auth::OAuth2Token(String::from("test-token")));
}

#[test]
fn client_with_url() {
    let client = Client::with_url(
        "https://api.github.com/",
        "rustyhub-test/0.0.0",
        Auth::OAuth2Token("test-token".to_string()),
    );
    assert!(client.api_url == String::from("https://api.github.com/"));
    assert!(client.user_agent == String::from("rustyhub-test/0.0.0"));
    assert!(client.authentication == Auth::OAuth2Token(String::from("test-token")));
}

#[test]
fn default_headers_hold_accept_and_user_agent() {
    let client = Client::new("my-agent", Auth::NoAuth);
    let headers = client.get_default_headers();
    assert_eq!(headers.len(), 2);
    assert_eq!(headers.get("Accept").unwrap().as_str(), "application/vnd.github.v3+json");
    assert_eq!(headers.get("User-Agent").unwrap().as_str(), "my-agent");
    assert!(headers.get("Authorization").is_none());
}

#[test]
fn get_returns_body_of_plain_response() {
    let client = Client::new("my-agent", Auth::NoAuth);
    let script = vec![Exchange::Delivered(plain_response(200, "text"))];
    let result = client.get("/zen".to_string(), None, &script).unwrap();
    assert_eq!(result.status, 200);
    assert_eq!(result.body, "text");
}

#[test]
fn redirects_are_followed_to_each_location() {
    let client = Client::new("my-agent", Auth::NoAuth);
    let script = vec![
        Exchange::Delivered(redirect_response(301, "https://api.github.com/moved")),
        Exchange::Delivered(redirect_response(307, "https://api.github.com/moved-again")),
        Exchange::Delivered(plain_response(200, "done")),
    ];
    let request = client.prepare_request(Method::Get, "/old".to_string(), None, None);
    let outcome = dispatch(&request, &script);

    let urls: Vec<&str> = outcome.requests.iter().map(|r| r.url.as_str()).collect();
    assert_eq!(
        urls,
        vec![
            "https://api.github.com/old",
            "https://api.github.com/moved",
            "https://api.github.com/moved-again",
        ]
    );
    // Each follow-up is a GET reusing the originally resolved headers, with
    // no body.
    for follow_up in &outcome.requests[1..] {
        assert_eq!(follow_up.method, Method::Get);
        assert_eq!(follow_up.headers.all(), request.headers.all());
        assert!(follow_up.body.is_none());
    }
    assert_eq!(outcome.permanent_notes, 1);
    let settled = outcome.result.unwrap();
    assert_eq!(settled.status, 200);
    assert_eq!(settled.body, "done");
}

#[test]
fn two_permanent_redirects_note_twice() {
    let client = Client::new("my-agent", Auth::NoAuth);
    let script = vec![
        Exchange::Delivered(redirect_response(301, "https://a")),
        Exchange::Delivered(redirect_response(308, "https://b")),
        Exchange::Delivered(plain_response(204, "")),
    ];
    let request = client.prepare_request(Method::Get, "/x".to_string(), None, None);
    let outcome = dispatch(&request, &script);
    assert_eq!(outcome.permanent_notes, 2);
    assert_eq!(outcome.requests.len(), 3);
}

#[test]
fn redirected_body_call_follows_with_a_bodiless_get() {
    let client = Client::new("my-agent", Auth::NoAuth);
    let script = vec![
        Exchange::Delivered(redirect_response(307, "https://api.github.com/elsewhere")),
        Exchange::Delivered(plain_response(201, "made")),
    ];
    let request =
        client.prepare_request(Method::Post, "/things".to_string(), None, Some("{}".to_string()));
    let outcome = dispatch(&request, &script);
    assert_eq!(outcome.requests.len(), 2);
    assert_eq!(outcome.requests[0].method, Method::Post);
    assert_eq!(outcome.requests[0].body.as_deref(), Some("{}"));
    assert_eq!(outcome.requests[1].method, Method::Get);
    assert!(outcome.requests[1].body.is_none());
    assert_eq!(outcome.requests[1].headers.all(), request.headers.all());
    assert_eq!(outcome.result.unwrap().body, "made");
}

#[test]
fn redirect_without_location_is_returned_as_is() {
    let client = Client::new("my-agent", Auth::NoAuth);
    let script = vec![Exchange::Delivered(plain_response(301, "gone"))];
    let result = client.get("/x".to_string(), None, &script).unwrap();
    assert_eq!(result.status, 301);
    assert_eq!(result.body, "gone");
}

#[test]
fn transport_fault_surfaces_as_http_error() {
    let client = Client::new("my-agent", Auth::NoAuth);
    let script = vec![Exchange::TransportFault("connection refused".to_string())];
    let err = client.get("/x".to_string(), None, &script).unwrap_err();
    assert_eq!(err, Error::HTTP("connection refused".to_string()));
}

#[test]
fn body_fault_surfaces_as_stdio_error() {
    let client = Client::new("my-agent", Auth::NoAuth);
    let script = vec![Exchange::BodyFault("stream closed".to_string())];
    let err = client.get("/x".to_string(), None, &script).unwrap_err();
    assert_eq!(err, Error::STDIO("stream closed".to_string()));
}

#[test]
fn empty_script_reports_missing_response() {
    let client = Client::new("my-agent", Auth::NoAuth);
    let script: Vec<Exchange> = Vec::new();
    let err = client.post("/x".to_string(), None, &script).unwrap_err();
    assert_eq!(err, Error::HTTP("no response from transport".to_string()));
}

#[test]
fn prepare_request_joins_url_headers_and_auth() {
    let client = Client::with_url(
        "https://github.example.com",
        "agent/1.0",
        Auth::OAuth2KeySecret("id".to_string(), "sec".to_string()),
    );
    let request = client.prepare_request(Method::Get, "/a/b".to_string(), None, None);
    assert_eq!(request.url, "https://github.example.com/a/b?client_id=id&client_secret=sec");
    assert_eq!(request.headers.get("Accept").unwrap().as_str(), "application/vnd.github.v3+json");
    assert_eq!(request.headers.get("User-Agent").unwrap().as_str(), "agent/1.0");
    assert!(request.headers.get("Authorization").is_none());
    assert!(request.body.is_none());
}

#[test]
fn response_to_string_maps_read_failures() {
    assert_eq!(Client::response_to_string(Ok("body".to_string())), Ok("body".to_string()));
    assert_eq!(
        Client::response_to_string(Err("broken pipe".to_string())),
        Err(Error::STDIO("broken pipe".to_string()))
    );
}
