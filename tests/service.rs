use hello_server::http::{
    bare_response, json_response, not_found, Method, Response, PORT, STATUS_INTERNAL_SERVER_ERROR,
    STATUS_NOT_FOUND, STATUS_OK,
};
use hello_server::json::{encode_object, frame_object, JsonError};
use hello_server::service::{hello, is_hello_path, resolve, respond, Route};

const GREETING: &str = "{\"message\":\"Hello, world!\"}";

fn assert_greeting(r: &Response) {
    assert_eq!(r.status, STATUS_OK);
    assert_eq!(r.content_type.as_deref(), Some("application/json"));
    assert_eq!(r.body, GREETING);
}

fn assert_not_found(r: &Response) {
    assert_eq!(r.status, STATUS_NOT_FOUND);
    assert_eq!(r.content_type, None);
    assert_eq!(r.body, "");
}

#[test]
fn get_hello_is_ok_with_json_greeting() {
    let r = respond(Method::Get, "/hello");
    assert_greeting(&r);
}

#[test]
fn get_hello_body_parses_as_the_greeting_object() {
    let r = respond(Method::Get, "/hello");
    let v: serde_json::Value = serde_json::from_str(&r.body).unwrap();
    let obj = v.as_object().unwrap();
    assert_eq!(obj.len(), 1);
    assert_eq!(obj.get("message").and_then(|m| m.as_str()), Some("Hello, world!"));
}

#[test]
fn get_hello_repeated_gives_the_same_answer() {
    for _ in 0..1000 {
        let r = respond(Method::Get, "/hello");
        assert_greeting(&r);
    }
}

#[test]
fn hello_handler_returns_greeting() {
    assert_greeting(&hello());
}

#[test]
fn get_unknown_is_not_found() {
    assert_not_found(&respond(Method::Get, "/unknown"));
}

#[test]
fn get_other_paths_are_not_found() {
    for p in ["", "/", "/hello/", "/Hello", "/hello2", "/hell", "hello", "/hello/x", "/héllo"] {
        assert_not_found(&respond(Method::Get, p));
    }
}

#[test]
fn non_get_hello_is_not_ok() {
    let methods = [
        Method::Head,
        Method::Post,
        Method::Put,
        Method::Delete,
        Method::Connect,
        Method::Options,
        Method::Trace,
        Method::Patch,
        Method::Other,
    ];
    for m in methods {
        let r = respond(m, "/hello");
        assert_ne!(r.status, STATUS_OK);
        assert_not_found(&r);
    }
}

#[test]
fn post_hello_is_not_found() {
    assert_not_found(&respond(Method::Post, "/hello"));
}

#[test]
fn resolve_picks_the_route() {
    assert_eq!(resolve(Method::Get, "/hello"), Route::Hello);
    assert_eq!(resolve(Method::Post, "/hello"), Route::NotFound);
    assert_eq!(resolve(Method::Get, "/unknown"), Route::NotFound);
    assert_eq!(resolve(Method::Get, ""), Route::NotFound);
}

#[test]
fn hello_path_is_matched_exactly() {
    assert!(is_hello_path("/hello"));
    assert!(!is_hello_path("/hello "));
    assert!(!is_hello_path("/hellO"));
    assert!(!is_hello_path(""));
    assert!(!is_hello_path("/hello?x=1"));
}

#[test]
fn encode_object_plain_text() {
    assert_eq!(encode_object("message", "Hello, world!"), Ok(GREETING.to_string()));
}

#[test]
fn encode_object_escapes_strings() {
    let r = encode_object("a\"b", "line\nbreak\u{1}\\\t\u{8}\u{c}\r/é");
    assert_eq!(
        r,
        Ok("{\"a\\\"b\":\"line\\nbreak\\u0001\\\\\\t\\b\\f\\r/é\"}".to_string())
    );
}

#[test]
fn encode_object_empty_strings() {
    assert_eq!(encode_object("", ""), Ok("{\"\":\"\"}".to_string()));
}

#[test]
fn encode_object_control_character_uses_lowercase_hex() {
    assert_eq!(encode_object("k", "\u{1f}"), Ok("{\"k\":\"\\u001f\"}".to_string()));
}

fn json_error() -> serde_json::Error {
    serde_json::from_str::<serde_json::Value>("{").unwrap_err()
}

#[test]
fn frame_object_frames_encoded_parts() {
    let r = frame_object(Ok("\"k\"".to_string()), Ok("\"v\"".to_string()));
    assert_eq!(r, Ok("{\"k\":\"v\"}".to_string()));
}

#[test]
fn frame_object_reports_key_error() {
    assert_eq!(frame_object(Err(json_error()), Ok("\"v\"".to_string())), Err(JsonError::Serialize));
}

#[test]
fn frame_object_reports_value_error() {
    assert_eq!(frame_object(Ok("\"k\"".to_string()), Err(json_error())), Err(JsonError::Serialize));
}

#[test]
fn json_response_success() {
    let r = json_response(Ok("[1]".to_string()));
    assert_eq!(r.status, 200);
    assert_eq!(r.content_type.as_deref(), Some("application/json"));
    assert_eq!(r.body, "[1]");
}

#[test]
fn json_response_failure_is_internal_error() {
    let r = json_response(Err(JsonError::Serialize));
    assert_eq!(r.status, STATUS_INTERNAL_SERVER_ERROR);
    assert_eq!(r.status, 500);
    assert_eq!(r.content_type, None);
    assert_eq!(r.body, "");
}

#[test]
fn not_found_is_bare_404() {
    let r = not_found();
    assert_eq!(r.status, 404);
    assert_not_found(&r);
}

#[test]
fn bare_response_keeps_status() {
    let r = bare_response(204);
    assert_eq!(r.status, 204);
    assert_eq!(r.content_type, None);
    assert!(r.body.is_empty());
}

#[test]
fn service_port() {
    assert_eq!(PORT, 8080);
}

#[test]
fn get_hello_unaffected_by_other_requests() {
    let first = respond(Method::Get, "/hello");
    assert_not_found(&respond(Method::Post, "/hello"));
    assert_not_found(&respond(Method::Get, "/unknown"));
    let second = respond(Method::Get, "/hello");
    assert_greeting(&first);
    assert_greeting(&second);
    assert_eq!(first.status, second.status);
    assert_eq!(first.content_type, second.content_type);
    assert_eq!(first.body, second.body);
}
