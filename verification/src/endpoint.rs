//! Endpoint descriptors: which transport a command client uses, and where
//! it is to be found.

use crate::text;
use crate::text::{eq_ignoring_ascii_case, trimmed};
use vstd::prelude::*;

verus! {

/// How the container reaches the host's command channel.
#[derive(Debug, PartialEq, Eq)]
pub enum CommandEndpoint {
    /// The process's own standard input and output.
    Stdio,
    /// A Unix domain socket at the given path.
    UnixSocket(String),
    /// A TCP socket at the given `host:port` address.
    Tcp(String),
    /// No channel: the runtime has disabled it on purpose.
    Unavailable,
}

/// The content of a [`CommandEndpoint`].
pub enum EndpointView {
    Stdio,
    UnixSocket(Seq<char>),
    Tcp(Seq<char>),
    Unavailable,
}

impl View for CommandEndpoint {
    type V = EndpointView;

    open spec fn view(&self) -> EndpointView {
        match self {
            CommandEndpoint::Stdio => EndpointView::Stdio,
            CommandEndpoint::UnixSocket(path) => EndpointView::UnixSocket(path@),
            CommandEndpoint::Tcp(address) => EndpointView::Tcp(address@),
            CommandEndpoint::Unavailable => EndpointView::Unavailable,
        }
    }
}

/// An endpoint string that fits no form of the grammar.
#[derive(Clone, Debug)]
pub enum CommandEndpointParseError {
    /// Holds the rejected string exactly as it was given.
    InvalidCommandEndpoint(String),
}

/// What an endpoint string denotes. Surrounding whitespace is ignored; the
/// keywords are matched without regard to case, the schemes exactly. A string
/// of no known form is handed back as it was given.
pub open spec fn endpoint_of(input: Seq<char>) -> Result<EndpointView, Seq<char>> {
    let value = trimmed(input);
    if eq_ignoring_ascii_case(value, "stdio"@) {
        Ok(EndpointView::Stdio)
    } else if eq_ignoring_ascii_case(value, "disabled"@) || eq_ignoring_ascii_case(
        value,
        "unavailable"@,
    ) {
        Ok(EndpointView::Unavailable)
    } else if "unix://"@.is_prefix_of(value) {
        Ok(EndpointView::UnixSocket(value.skip("unix://"@.len() as int)))
    } else if "tcp://"@.is_prefix_of(value) {
        Ok(EndpointView::Tcp(value.skip("tcp://"@.len() as int)))
    } else {
        Err(input)
    }
}

impl CommandEndpoint {
    /// Parses an endpoint string: `stdio`, `disabled` or `unavailable`,
    /// `unix://<path>`, `tcp://<host:port>`.
    pub fn parse(s: &str) -> (r: Result<CommandEndpoint, CommandEndpointParseError>)
        ensures
            match r {
                Ok(endpoint) => endpoint_of(s@) == Ok::<EndpointView, Seq<char>>(endpoint@),
                Err(CommandEndpointParseError::InvalidCommandEndpoint(rejected)) => endpoint_of(s@)
                    == Err::<EndpointView, Seq<char>>(rejected@),
            },
    {
        let value = text::trim(s);
        if text::eq_ignore_ascii_case(value, "stdio") {
            return Ok(CommandEndpoint::Stdio);
        }
        if text::eq_ignore_ascii_case(value, "disabled") || text::eq_ignore_ascii_case(
            value,
            "unavailable",
        ) {
            return Ok(CommandEndpoint::Unavailable);
        }
        if let Some(path) = text::strip_prefix(value, "unix://") {
            return Ok(CommandEndpoint::UnixSocket(path.to_owned()));
        }
        if let Some(address) = text::strip_prefix(value, "tcp://") {
            return Ok(CommandEndpoint::Tcp(address.to_owned()));
        }
        Err(CommandEndpointParseError::InvalidCommandEndpoint(s.to_owned()))
    }
}

impl Clone for CommandEndpoint {
    fn clone(&self) -> (r: Self)
        ensures
            r == *self,
    {
        match self {
            CommandEndpoint::Stdio => CommandEndpoint::Stdio,
            CommandEndpoint::UnixSocket(path) => CommandEndpoint::UnixSocket(path.clone()),
            CommandEndpoint::Tcp(address) => CommandEndpoint::Tcp(address.clone()),
            CommandEndpoint::Unavailable => CommandEndpoint::Unavailable,
        }
    }
}

impl Default for CommandEndpoint {
    fn default() -> (r: Self)
        ensures
            r == CommandEndpoint::Stdio,
    {
        CommandEndpoint::Stdio
    }
}

impl core::str::FromStr for CommandEndpoint {
    type Err = CommandEndpointParseError;

    /// Parses an endpoint string, as [`CommandEndpoint::parse`] does.
    fn from_str(s: &str) -> (r: Result<Self, Self::Err>)
        ensures
            match r {
                Ok(endpoint) => endpoint_of(s@) == Ok::<EndpointView, Seq<char>>(endpoint@),
                Err(CommandEndpointParseError::InvalidCommandEndpoint(rejected)) => endpoint_of(s@)
                    == Err::<EndpointView, Seq<char>>(rejected@),
            },
    {
        CommandEndpoint::parse(s)
    }
}

impl CommandEndpointParseError {
    /// The rejected string.
    pub open spec fn rejected(&self) -> Seq<char> {
        match self {
            CommandEndpointParseError::InvalidCommandEndpoint(value) => value@,
        }
    }

    /// The error as a sentence for people.
    pub fn message(&self) -> (r: String)
        ensures
            r@ == "invalid command endpoint: "@ + self.rejected(),
    {
        match self {
            CommandEndpointParseError::InvalidCommandEndpoint(value) => String::from_str(
                "invalid command endpoint: ",
            ).concat(value.as_str()),
        }
    }
}

} // verus!
