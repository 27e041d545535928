use containerflare::endpoint::{CommandEndpoint, CommandEndpointParseError};

#[test]
fn parses_command_endpoint_strings() {
    assert!(matches!(
        "stdio".parse::<CommandEndpoint>(),
        Ok(CommandEndpoint::Stdio)
    ));
    assert!(matches!(
        "tcp://127.0.0.1:1111".parse::<CommandEndpoint>(),
        Ok(CommandEndpoint::Tcp(addr)) if addr == "127.0.0.1:1111"
    ));
    assert!(matches!(
        "disabled".parse::<CommandEndpoint>(),
        Ok(CommandEndpoint::Unavailable)
    ));

    let endpoint = "unix:///tmp/socket".parse::<CommandEndpoint>();
    assert!(matches!(endpoint, Ok(CommandEndpoint::UnixSocket(path)) if path == "/tmp/socket"));
}

#[test]
fn parses_keywords_without_regard_to_case() {
    assert_eq!(CommandEndpoint::parse("STDIO").unwrap(), CommandEndpoint::Stdio);
    assert_eq!(CommandEndpoint::parse("StdIo").unwrap(), CommandEndpoint::Stdio);
    assert_eq!(CommandEndpoint::parse("Disabled").unwrap(), CommandEndpoint::Unavailable);
    assert_eq!(CommandEndpoint::parse("unavailable").unwrap(), CommandEndpoint::Unavailable);
    assert_eq!(CommandEndpoint::parse("UNAVAILABLE").unwrap(), CommandEndpoint::Unavailable);
}

#[test]
fn parses_addresses_after_the_scheme() {
    assert_eq!(
        CommandEndpoint::parse("tcp://127.0.0.1:9000").unwrap(),
        CommandEndpoint::Tcp("127.0.0.1:9000".to_string())
    );
    assert_eq!(
        CommandEndpoint::parse("unix:///tmp/s.sock").unwrap(),
        CommandEndpoint::UnixSocket("/tmp/s.sock".to_string())
    );
    assert_eq!(
        CommandEndpoint::parse("tcp://").unwrap(),
        CommandEndpoint::Tcp(String::new())
    );
}

#[test]
fn schemes_are_matched_exactly() {
    assert!(CommandEndpoint::parse("TCP://127.0.0.1:9000").is_err());
    assert!(CommandEndpoint::parse("Unix:///tmp/s.sock").is_err());
    assert!(CommandEndpoint::parse("tcp:/127.0.0.1:9000").is_err());
}

#[test]
fn surrounding_whitespace_is_ignored() {
    assert_eq!(CommandEndpoint::parse("  stdio\n").unwrap(), CommandEndpoint::Stdio);
    assert_eq!(
        CommandEndpoint::parse("\ttcp://host:1 ").unwrap(),
        CommandEndpoint::Tcp("host:1".to_string())
    );
}

#[test]
fn rejects_unknown_forms_with_the_input() {
    let error = CommandEndpoint::parse("garbage").unwrap_err();
    let CommandEndpointParseError::InvalidCommandEndpoint(rejected) = &error;
    assert_eq!(rejected, "garbage");
    assert!(error.message().contains("garbage"));
    assert_eq!(error.message(), "invalid command endpoint: garbage");

    let error = CommandEndpoint::parse("").unwrap_err();
    assert_eq!(error.message(), "invalid command endpoint: ");
}

#[test]
fn default_endpoint_is_stdio() {
    assert_eq!(CommandEndpoint::default(), CommandEndpoint::Stdio);
}
