use containerflare::client::{Arrival, Await, CommandClient, Dial, Transmit, DEFAULT_TIMEOUT_SECS};
use containerflare::endpoint::CommandEndpoint;
use containerflare::error::CommandError;
use containerflare::message::{CommandRequest, CommandResponse};
use serde_json::Value;
use std::io::{Error, ErrorKind};
use std::time::Duration;

fn stdio_client() -> CommandClient {
    CommandClient::connect(CommandEndpoint::Stdio, true, Ok(())).unwrap()
}

fn pong() -> Value {
    let mut map = serde_json::Map::new();
    map.insert("pong".to_string(), Value::Bool(true));
    Value::Object(map)
}

/// Plays one command against a peer that answers every line with `reply`.
fn exchange(
    client: &CommandClient,
    request: CommandRequest,
    reply: Arrival,
) -> Result<CommandResponse, CommandError> {
    match client.send(&request) {
        Transmit::Abort(error) => Err(error),
        Transmit::Frame(frame) => {
            assert!(frame.ends_with('\n'));
            match client.written(Ok(())) {
                Await::Abort(error) => Err(error),
                Await::Reply(_) => client.received(reply),
            }
        }
    }
}

#[test]
fn success_returns_the_hosts_payload() {
    let client = stdio_client();
    let reply = Arrival::Line("{\"ok\":true,\"payload\":{\"pong\":true}}\n".to_string());
    let response = exchange(&client, CommandRequest::empty("ping"), reply).unwrap();
    assert!(response.ok);
    assert_eq!(response.payload, pong());
    assert_eq!(response.diagnostic, None);
}

#[test]
fn logical_failure_carries_the_diagnostic() {
    let client = stdio_client();
    let reply = Arrival::Line("{\"ok\":false,\"diagnostic\":\"boom\"}\n".to_string());
    let error = exchange(&client, CommandRequest::empty("ping"), reply).unwrap_err();
    match &error {
        CommandError::CommandFailure { diagnostic, payload } => {
            assert_eq!(diagnostic, "boom");
            assert_eq!(*payload, Value::Null);
        }
        other => panic!("unexpected error: {:?}", other),
    }
    assert_eq!(error.message(), "command failed: boom");
}

#[test]
fn failure_keeps_the_payload_for_the_caller() {
    let client = stdio_client();
    let reply =
        Arrival::Line("{\"ok\":false,\"diagnostic\":\"no\",\"payload\":{\"pong\":true}}\n".to_string());
    match client.received(reply) {
        Err(CommandError::CommandFailure { diagnostic, payload }) => {
            assert_eq!(diagnostic, "no");
            assert_eq!(payload, pong());
        }
        other => panic!("unexpected result: {:?}", other),
    }
}

#[test]
fn missing_diagnostic_defaults_to_the_generic_message() {
    let client = stdio_client();
    let reply = Arrival::Line("{\"ok\":false}\n".to_string());
    let error = exchange(&client, CommandRequest::empty("ping"), reply).unwrap_err();
    match &error {
        CommandError::CommandFailure { diagnostic, .. } => {
            assert_eq!(diagnostic, "host returned failure")
        }
        other => panic!("unexpected error: {:?}", other),
    }
    assert_eq!(error.message(), "command failed: host returned failure");
}

#[test]
fn timeout_carries_the_configured_duration() {
    let window = Duration::from_millis(50);
    let client =
        CommandClient::connect_with_timeout(CommandEndpoint::Stdio, window, true, Ok(())).unwrap();
    assert_eq!(client.timeout(), window);
    match client.written(Ok(())) {
        Await::Reply(wait) => assert_eq!(wait, window),
        other => panic!("unexpected step: {:?}", other),
    }
    let error = exchange(&client, CommandRequest::empty("ping"), Arrival::TimedOut).unwrap_err();
    assert!(matches!(error, CommandError::Timeout(d) if d == window));
    assert_eq!(error.message(), "command timed out after 50ms");
}

#[test]
fn closed_transport_is_reported_as_closed() {
    let client = stdio_client();
    let error =
        exchange(&client, CommandRequest::empty("ping"), Arrival::Line(String::new())).unwrap_err();
    assert!(matches!(error, CommandError::TransportClosed));
    assert_eq!(error.message(), "command transport closed");
}

#[test]
fn unavailable_client_fails_with_its_reason() {
    let client = CommandClient::unavailable("no command bus on this host");
    assert_eq!(*client.endpoint(), CommandEndpoint::Unavailable);
    assert_eq!(
        client.unavailable_reason().map(|reason| reason.as_str()),
        Some("no command bus on this host")
    );
    match client.send(&CommandRequest::empty("ping")) {
        Transmit::Abort(CommandError::Unavailable(reason)) => {
            assert_eq!(reason, "no command bus on this host")
        }
        other => panic!("unexpected step: {:?}", other),
    }
    match client.written(Ok(())) {
        Await::Abort(CommandError::Unavailable(reason)) => {
            assert_eq!(reason, "no command bus on this host")
        }
        other => panic!("unexpected step: {:?}", other),
    }
    let reply = Arrival::Line("{\"ok\":true}\n".to_string());
    match client.received(reply) {
        Err(error @ CommandError::Unavailable(_)) => assert_eq!(
            error.message(),
            "command channel unavailable: no command bus on this host"
        ),
        other => panic!("unexpected result: {:?}", other),
    }
}

#[test]
fn frames_are_single_lines() {
    let client = stdio_client();
    let requests = vec![
        CommandRequest::empty("ping"),
        CommandRequest::new("multi\nline", Value::from("a\nb")),
        CommandRequest::new("obj", pong()),
    ];
    for request in requests {
        match client.send(&request) {
            Transmit::Frame(frame) => {
                assert!(frame.ends_with('\n'));
                assert_eq!(frame.matches('\n').count(), 1);
                let back = CommandRequest::decode(&frame).unwrap();
                assert_eq!(back.command, request.command);
                assert_eq!(back.payload, request.payload);
            }
            other => panic!("unexpected step: {:?}", other),
        }
    }
}

#[test]
fn send_frames_the_request() {
    let client = stdio_client();
    match client.send(&CommandRequest::empty("ping")) {
        Transmit::Frame(frame) => assert_eq!(frame, "{\"command\":\"ping\",\"payload\":null}\n"),
        other => panic!("unexpected step: {:?}", other),
    }
}

#[test]
fn write_failure_is_an_io_error() {
    let client = stdio_client();
    match client.written(Err(Error::new(ErrorKind::BrokenPipe, "pipe closed"))) {
        Await::Abort(error @ CommandError::Io(_)) => {
            assert_eq!(error.message(), "io error: pipe closed")
        }
        other => panic!("unexpected step: {:?}", other),
    }
}

#[test]
fn read_failure_is_an_io_error() {
    let client = stdio_client();
    let arrival = Arrival::Failed(Error::new(ErrorKind::InvalidData, "not utf-8"));
    match client.received(arrival) {
        Err(CommandError::Io(cause)) => assert_eq!(cause.kind(), ErrorKind::InvalidData),
        other => panic!("unexpected result: {:?}", other),
    }
}

#[test]
fn undecodable_line_is_a_serialization_error() {
    let client = stdio_client();
    let error = client.received(Arrival::Line("pong\n".to_string())).unwrap_err();
    assert!(matches!(error, CommandError::Serialization(_)));
    assert!(error.message().starts_with("invalid command payload: "));
    let error = client.received(Arrival::Line("\n".to_string())).unwrap_err();
    assert!(matches!(error, CommandError::Serialization(_)));
    let error = client.received(Arrival::Line("{\"payload\":1}\n".to_string())).unwrap_err();
    assert!(matches!(error, CommandError::Serialization(_)));
}

#[test]
fn a_line_without_its_end_is_still_read() {
    let client = stdio_client();
    let response = client.received(Arrival::Line("{\"ok\":true}".to_string())).unwrap();
    assert!(response.ok);
}

#[test]
fn success_keeps_the_response_as_it_came() {
    let client = stdio_client();
    let reply = Arrival::Line("{\"ok\":true,\"diagnostic\":\"fyi\"}\n".to_string());
    let response = client.received(reply).unwrap();
    assert!(response.ok);
    assert_eq!(response.diagnostic.as_deref(), Some("fyi"));
}

#[test]
fn connect_uses_the_default_timeout() {
    assert_eq!(DEFAULT_TIMEOUT_SECS, 30);
    let client = stdio_client();
    assert_eq!(client.timeout(), Duration::from_secs(30));
    assert_eq!(*client.endpoint(), CommandEndpoint::Stdio);
    assert!(client.unavailable_reason().is_none());
    assert_eq!(CommandClient::unavailable("x").timeout(), Duration::from_secs(30));
}

#[test]
fn stdio_needs_nothing_opened_and_cannot_fail() {
    assert_eq!(CommandEndpoint::Stdio.dial(true), Dial::Stdio);
    assert_eq!(CommandEndpoint::Stdio.dial(false), Dial::Stdio);
    let failed = Err(Error::new(ErrorKind::Other, "ignored"));
    let client = CommandClient::connect(CommandEndpoint::Stdio, false, failed).unwrap();
    assert!(client.unavailable_reason().is_none());
}

#[test]
fn tcp_connects_when_the_socket_opened() {
    let endpoint = CommandEndpoint::Tcp("127.0.0.1:9000".to_string());
    assert_eq!(endpoint.dial(false), Dial::Tcp("127.0.0.1:9000".to_string()));
    let client = CommandClient::connect(endpoint.clone(), false, Ok(())).unwrap();
    assert_eq!(*client.endpoint(), endpoint);
    assert!(client.unavailable_reason().is_none());
}

#[test]
fn tcp_fails_when_the_socket_did_not_open() {
    let endpoint = CommandEndpoint::Tcp("127.0.0.1:9".to_string());
    let refused = Err(Error::new(ErrorKind::ConnectionRefused, "refused"));
    match CommandClient::connect(endpoint, true, refused) {
        Err(CommandError::Io(cause)) => assert_eq!(cause.kind(), ErrorKind::ConnectionRefused),
        other => panic!("unexpected result: {:?}", other),
    }
}

#[test]
fn unix_socket_follows_the_platform() {
    let endpoint = CommandEndpoint::UnixSocket("/tmp/s.sock".to_string());
    assert_eq!(endpoint.dial(true), Dial::Unix("/tmp/s.sock".to_string()));
    assert_eq!(endpoint.dial(false), Dial::Nothing);

    let client = CommandClient::connect(endpoint.clone(), true, Ok(())).unwrap();
    assert!(client.unavailable_reason().is_none());

    let missing = Err(Error::new(ErrorKind::NotFound, "no such file"));
    assert!(matches!(
        CommandClient::connect(endpoint.clone(), true, missing),
        Err(CommandError::Io(_))
    ));

    let client = CommandClient::connect(endpoint.clone(), false, Ok(())).unwrap();
    assert_eq!(*client.endpoint(), endpoint);
    assert_eq!(
        client.unavailable_reason().map(|reason| reason.as_str()),
        Some("unix domain sockets are not supported on this platform")
    );
    assert!(matches!(
        client.send(&CommandRequest::empty("ping")),
        Transmit::Abort(CommandError::Unavailable(_))
    ));
}

#[test]
fn unavailable_endpoint_gives_a_client_that_fails_fast() {
    assert_eq!(CommandEndpoint::Unavailable.dial(true), Dial::Nothing);
    let client = CommandClient::connect(CommandEndpoint::Unavailable, true, Ok(())).unwrap();
    match client.send(&CommandRequest::empty("ping")) {
        Transmit::Abort(CommandError::Unavailable(reason)) => {
            assert_eq!(reason, "command endpoint marked unavailable")
        }
        other => panic!("unexpected step: {:?}", other),
    }
}

#[test]
fn clones_share_the_description() {
    let window = Duration::from_millis(250);
    let endpoint = CommandEndpoint::Tcp("host:1".to_string());
    let client = CommandClient::connect_with_timeout(endpoint.clone(), window, true, Ok(())).unwrap();
    let copy = client.clone();
    assert_eq!(*copy.endpoint(), endpoint);
    assert_eq!(copy.timeout(), window);
    assert!(copy.unavailable_reason().is_none());
}

#[test]
fn foreign_errors_convert_into_their_kinds() {
    let error: CommandError = Error::new(ErrorKind::BrokenPipe, "gone").into();
    assert!(matches!(error, CommandError::Io(_)));
    let cause = serde_json::from_str::<Value>("{").unwrap_err();
    let error: CommandError = cause.into();
    assert!(matches!(error, CommandError::Serialization(_)));
}

#[test]
fn frames_written_in_turn_are_read_back_line_by_line() {
    let client = stdio_client();
    let requests = vec![
        CommandRequest::empty("first"),
        CommandRequest::new("second\n", Value::from("two\nlines")),
        CommandRequest::new("third", pong()),
    ];
    let mut wire = String::new();
    for request in &requests {
        match client.send(request) {
            Transmit::Frame(frame) => wire.push_str(&frame),
            other => panic!("unexpected step: {:?}", other),
        }
    }
    let lines: Vec<&str> = wire.split_inclusive('\n').collect();
    assert_eq!(lines.len(), requests.len());
    for (line, request) in lines.iter().zip(&requests) {
        assert!(line.ends_with('\n'));
        let back = CommandRequest::decode(line).unwrap();
        assert_eq!(back.command, request.command);
        assert_eq!(back.payload, request.payload);
    }
}
