use containerflare::message::{CommandRequest, CommandResponse};
use serde_json::Value;

fn object(entries: Vec<(&str, Value)>) -> Value {
    let mut map = serde_json::Map::new();
    for (key, value) in entries {
        map.insert(key.to_string(), value);
    }
    Value::Object(map)
}

#[test]
fn request_round_trip() {
    let request = CommandRequest::empty("ping");
    let line = request.encode().unwrap();
    let back = CommandRequest::decode(&line).unwrap();
    assert_eq!(back.command, "ping");
    assert_eq!(back.payload, Value::Null);
    assert_eq!(back.command, request.command);
    assert_eq!(back.payload, request.payload);
}

#[test]
fn response_round_trip() {
    let response = CommandResponse::ok();
    let line = response.encode().unwrap();
    let back = CommandResponse::decode(&line).unwrap();
    assert_eq!(back.ok, true);
    assert_eq!(back.payload, Value::Null);
    assert_eq!(back.diagnostic, None);

    let response = CommandResponse {
        ok: false,
        payload: object(vec![("code", Value::from(7))]),
        diagnostic: Some("boom".to_string()),
    };
    let back = CommandResponse::decode(&response.encode().unwrap()).unwrap();
    assert_eq!(back.ok, false);
    assert_eq!(back.payload, response.payload);
    assert_eq!(back.diagnostic.as_deref(), Some("boom"));
}

#[test]
fn request_round_trip_keeps_a_structured_payload() {
    let payload = object(vec![
        ("name", Value::from("a \"quoted\"\nname")),
        ("list", Value::Array(vec![Value::from(1), Value::Bool(false), Value::Null])),
    ]);
    let request = CommandRequest::new("store", payload.clone());
    let back = CommandRequest::decode(&request.encode().unwrap()).unwrap();
    assert_eq!(back.command, "store");
    assert_eq!(back.payload, payload);
}

#[test]
fn request_wire_form() {
    assert_eq!(
        CommandRequest::empty("ping").encode().unwrap(),
        "{\"command\":\"ping\",\"payload\":null}"
    );
    let request = CommandRequest::new("echo", object(vec![("text", Value::from("hi"))]));
    assert_eq!(
        request.encode().unwrap(),
        "{\"command\":\"echo\",\"payload\":{\"text\":\"hi\"}}"
    );
    assert_eq!(
        request.to_json(),
        object(vec![
            ("command", Value::from("echo")),
            ("payload", object(vec![("text", Value::from("hi"))])),
        ])
    );
}

#[test]
fn response_wire_form() {
    assert_eq!(
        CommandResponse::ok().to_json(),
        object(vec![
            ("ok", Value::Bool(true)),
            ("payload", Value::Null),
            ("diagnostic", Value::Null),
        ])
    );
    let response = CommandResponse {
        ok: false,
        payload: Value::from(3),
        diagnostic: Some("no".to_string()),
    };
    assert_eq!(
        response.to_json(),
        object(vec![
            ("ok", Value::Bool(false)),
            ("payload", Value::from(3)),
            ("diagnostic", Value::from("no")),
        ])
    );
}

#[test]
fn encoded_lines_hold_no_line_feed() {
    let request = CommandRequest::new("multi\nline", Value::from("a\nb\r\nc"));
    let line = request.encode().unwrap();
    assert!(!line.contains('\n'));
    let back = CommandRequest::decode(&line).unwrap();
    assert_eq!(back.command, "multi\nline");
    assert_eq!(back.payload, Value::from("a\nb\r\nc"));
}

#[test]
fn new_and_empty_requests() {
    let request = CommandRequest::new("run", Value::Bool(true));
    assert_eq!(request.command, "run");
    assert_eq!(request.payload, Value::Bool(true));
    let request = CommandRequest::empty("health_check");
    assert_eq!(request.command, "health_check");
    assert_eq!(request.payload, Value::Null);
}

#[test]
fn ok_response_is_a_bare_success() {
    let response = CommandResponse::ok();
    assert!(response.ok);
    assert_eq!(response.payload, Value::Null);
    assert!(response.diagnostic.is_none());
}

#[test]
fn response_members_default_when_missing() {
    let response = CommandResponse::decode("{\"ok\":true}").unwrap();
    assert!(response.ok);
    assert_eq!(response.payload, Value::Null);
    assert_eq!(response.diagnostic, None);

    let response = CommandResponse::decode("{\"ok\":false,\"diagnostic\":null}\n").unwrap();
    assert!(!response.ok);
    assert_eq!(response.diagnostic, None);
}

#[test]
fn response_ignores_unknown_members() {
    let response =
        CommandResponse::decode("{\"extra\":[1,2],\"ok\":true,\"payload\":{\"pong\":true}}")
            .unwrap();
    assert!(response.ok);
    assert_eq!(response.payload, object(vec![("pong", Value::Bool(true))]));
}

#[test]
fn response_needs_a_boolean_ok() {
    assert!(CommandResponse::decode("{}").is_err());
    assert!(CommandResponse::decode("{\"payload\":1}").is_err());
    assert!(CommandResponse::decode("{\"ok\":\"true\"}").is_err());
    assert!(CommandResponse::decode("{\"ok\":1}").is_err());
    assert!(CommandResponse::decode("{\"ok\":null}").is_err());
    assert!(CommandResponse::decode("true").is_err());
    assert!(CommandResponse::decode("null").is_err());
}

#[test]
fn response_diagnostic_is_a_string_or_null() {
    assert!(CommandResponse::decode("{\"ok\":false,\"diagnostic\":5}").is_err());
    assert!(CommandResponse::decode("{\"ok\":false,\"diagnostic\":[\"x\"]}").is_err());
    let response = CommandResponse::decode("{\"ok\":false,\"diagnostic\":\"\"}").unwrap();
    assert_eq!(response.diagnostic.as_deref(), Some(""));
}

#[test]
fn malformed_text_is_rejected() {
    assert!(CommandResponse::decode("not json").is_err());
    assert!(CommandResponse::decode("{\"ok\":true").is_err());
    assert!(CommandResponse::decode("{\"ok\":true} trailing").is_err());
    assert!(CommandResponse::decode("").is_err());
    assert!(CommandRequest::decode("[]").is_err());
}

#[test]
fn request_needs_a_string_command() {
    assert!(CommandRequest::decode("{}").is_err());
    assert!(CommandRequest::decode("{\"command\":7}").is_err());
    let request = CommandRequest::decode("{\"command\":\"go\"}").unwrap();
    assert_eq!(request.command, "go");
    assert_eq!(request.payload, Value::Null);
}

#[test]
fn from_json_reads_what_to_json_writes() {
    let request = CommandRequest::new("sum", Value::Array(vec![Value::from(1), Value::from(2)]));
    let back = CommandRequest::from_json(&request.to_json()).unwrap();
    assert_eq!(back.command, request.command);
    assert_eq!(back.payload, request.payload);
    assert!(CommandResponse::from_json(&Value::Bool(true)).is_err());
}
