//! What can go wrong on the command channel. Every kind ends the call it
//! arises in; nothing is retried.

use std::time::Duration;
use vstd::prelude::*;

verus! {

/// `std::io::Error`, which is only carried along.
#[verifier::external_type_specification]
#[verifier::external_body]
pub struct ExIoError(std::io::Error);

/// The text that `Duration`'s `Debug` form writes, such as `50ms` or `30s`.
pub uninterp spec fn duration_text(duration: Duration) -> Seq<char>;

/// Formats a `Duration` with `{:?}`. Assumed: the text depends on the
/// duration alone.
#[verifier::external_body]
fn describe_duration(duration: &Duration) -> (r: String)
    ensures
        r@ == duration_text(*duration),
{
    format!("{:?}", duration)
}

/// Formats a `std::io::Error` with `{}`. Nothing is assumed of the text: for
/// an error of the operating system it is the system's own.
#[verifier::external_body]
fn describe_io_error(error: &std::io::Error) -> String {
    format!("{}", error)
}

/// Formats a `serde_json::Error` with `{}`. Nothing is assumed of the text.
#[verifier::external_body]
fn describe_json_error(error: &serde_json::Error) -> String {
    format!("{}", error)
}

/// Why a command did not succeed.
#[derive(Debug)]
pub enum CommandError {
    /// The host carried the command out and reported that it failed.
    CommandFailure { diagnostic: String, payload: serde_json::Value },
    /// The host closed the stream.
    TransportClosed,
    /// No response came within the given time.
    Timeout(Duration),
    /// The transport itself failed.
    Io(std::io::Error),
    /// A message was not the JSON it should have been.
    Serialization(serde_json::Error),
    /// The channel is disabled, for the given reason.
    Unavailable(String),
}

impl CommandError {
    /// What the sentence for this error begins with.
    pub open spec fn heading(self) -> Seq<char> {
        match self {
            CommandError::CommandFailure { .. } => "command failed: "@,
            CommandError::TransportClosed => "command transport closed"@,
            CommandError::Timeout(_) => "command timed out after "@,
            CommandError::Io(_) => "io error: "@,
            CommandError::Serialization(_) => "invalid command payload: "@,
            CommandError::Unavailable(_) => "command channel unavailable: "@,
        }
    }

    /// What follows the heading, where this crate determines it.
    pub open spec fn detail(self) -> Option<Seq<char>> {
        match self {
            CommandError::CommandFailure { diagnostic, .. } => Some(diagnostic@),
            CommandError::TransportClosed => Some(Seq::empty()),
            CommandError::Timeout(duration) => Some(duration_text(duration)),
            CommandError::Io(_) => None,
            CommandError::Serialization(_) => None,
            CommandError::Unavailable(reason) => Some(reason@),
        }
    }

    /// The error as a sentence for people: the heading of its kind, then
    /// the detail. For the two kinds that wrap a foreign error the detail is
    /// that error's own text.
    pub fn message(&self) -> (r: String)
        ensures
            self.heading().is_prefix_of(r@),
            self.detail() matches Some(detail) ==> r@ == self.heading() + detail,
    {
        match self {
            CommandError::CommandFailure { diagnostic, .. } => String::from_str(
                "command failed: ",
            ).concat(diagnostic.as_str()),
            CommandError::TransportClosed => {
                let r = String::from_str("command transport closed");
                r
            },
            CommandError::Timeout(duration) => String::from_str("command timed out after ").concat(
                describe_duration(duration).as_str(),
            ),
            CommandError::Io(error) => String::from_str("io error: ").concat(
                describe_io_error(error).as_str(),
            ),
            CommandError::Serialization(error) => String::from_str(
                "invalid command payload: ",
            ).concat(describe_json_error(error).as_str()),
            CommandError::Unavailable(reason) => String::from_str(
                "command channel unavailable: ",
            ).concat(reason.as_str()),
        }
    }
}

impl From<std::io::Error> for CommandError {
    /// A fault of the transport.
    fn from(error: std::io::Error) -> (r: Self) {
        CommandError::Io(error)
    }
}

impl vstd::std_specs::convert::FromSpecImpl<std::io::Error> for CommandError {
    open spec fn obeys_from_spec() -> bool {
        true
    }

    open spec fn from_spec(error: std::io::Error) -> Self {
        CommandError::Io(error)
    }
}

impl From<serde_json::Error> for CommandError {
    /// A message that was not the JSON it should have been.
    fn from(error: serde_json::Error) -> (r: Self) {
        CommandError::Serialization(error)
    }
}

impl vstd::std_specs::convert::FromSpecImpl<serde_json::Error> for CommandError {
    open spec fn obeys_from_spec() -> bool {
        true
    }

    open spec fn from_spec(error: serde_json::Error) -> Self {
        CommandError::Serialization(error)
    }
}

} // verus!
