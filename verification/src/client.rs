//! The command client: one request, one response, over one transport.
//!
//! The client decides; it does not perform I/O. Whoever drives it opens the
//! transport that [`CommandEndpoint::dial`] names, and then, for each
//! command, writes the frame that [`CommandClient::send`] hands out, reports
//! how that went to [`CommandClient::written`], waits for a line for as long
//! as that step allows, and reports what arrived to
//! [`CommandClient::received`]. The driver serialises writers among
//! themselves and readers among themselves; the client itself has no state
//! that a call could change.
//!
//! The protocol is half duplex and carries no correlation identifier: a
//! response belongs to whichever caller reads next. Callers who share a
//! client are to take turns for the whole of a command, or accept answers
//! that are not theirs. A command that timed out leaves its answer, if one
//! comes after all, on the transport, where the next reader finds it;
//! nothing drains it. Nothing is retried and no transport is opened twice.

use crate::endpoint::{CommandEndpoint, EndpointView};
use crate::error::CommandError;
use crate::json::{json_text, Json};
use crate::message::{
    read_line, request_document, response_in, CommandRequest, CommandResponse, RequestView,
    ResponseView,
};
use crate::text::{lemma_position, position};
use std::time::Duration;
use vstd::prelude::*;

verus! {

/// The number of seconds a client waits for a response unless told otherwise.
pub const DEFAULT_TIMEOUT_SECS: u64 = 30;

/// The `Duration` that `Duration::from_secs` makes of a number of seconds.
pub uninterp spec fn seconds(secs: u64) -> Duration;

/// `Duration::from_secs`. Assumed: the duration depends on the number alone.
pub assume_specification[ Duration::from_secs ](secs: u64) -> (r: Duration)
    ensures
        r == seconds(secs),
;

/// The transport that a client is to be given.
#[derive(Clone, Debug, PartialEq, Eq)]
pub enum Dial {
    /// The standard streams of the process, which are open already.
    Stdio,
    /// A TCP connection to the given address, which has to be opened.
    Tcp(String),
    /// A connection to the Unix domain socket at the given path, which has
    /// to be opened.
    Unix(String),
    /// None: the client has no channel.
    Nothing,
}

/// The content of a [`Dial`].
pub enum DialView {
    Stdio,
    Tcp(Seq<char>),
    Unix(Seq<char>),
    Nothing,
}

impl DialView {
    /// Whether a socket has to be opened, which can fail.
    pub open spec fn opens_socket(self) -> bool {
        self is Tcp || self is Unix
    }
}

impl View for Dial {
    type V = DialView;

    open spec fn view(&self) -> DialView {
        match self {
            Dial::Stdio => DialView::Stdio,
            Dial::Tcp(address) => DialView::Tcp(address@),
            Dial::Unix(path) => DialView::Unix(path@),
            Dial::Nothing => DialView::Nothing,
        }
    }
}

/// What the driver is to do with a request.
#[derive(Debug)]
pub enum Transmit {
    /// Write this frame to the transport and flush it.
    Frame(String),
    /// Nothing: the call has ended with this error.
    Abort(CommandError),
}

/// What the driver is to do once the frame is written.
#[derive(Debug)]
pub enum Await {
    /// Wait for the next line, but no longer than this.
    Reply(Duration),
    /// Nothing: the call has ended with this error.
    Abort(CommandError),
}

/// What came of waiting for a line.
#[derive(Debug)]
pub enum Arrival {
    /// The line that was read, with its end if it had one. An empty line
    /// means that no byte was read: the stream is at its end.
    Line(String),
    /// Reading failed.
    Failed(std::io::Error),
    /// The time allowed ran out first.
    TimedOut,
}

/// Why a channel is not there, where the endpoint itself says so.
pub open spec fn marked_unavailable() -> Seq<char> {
    "command endpoint marked unavailable"@
}

/// Why a channel is not there, where the platform has no Unix domain sockets.
pub open spec fn unix_sockets_unsupported() -> Seq<char> {
    "unix domain sockets are not supported on this platform"@
}

/// What a failed command says where the host gave no diagnostic.
pub open spec fn generic_diagnostic() -> Seq<char> {
    "host returned failure"@
}

/// The transport for an endpoint. A Unix domain socket is one only where
/// the platform has such sockets.
pub open spec fn dial_for(endpoint: EndpointView, unix_sockets: bool) -> DialView {
    match endpoint {
        EndpointView::Stdio => DialView::Stdio,
        EndpointView::Tcp(address) => DialView::Tcp(address),
        EndpointView::UnixSocket(path) => if unix_sockets {
            DialView::Unix(path)
        } else {
            DialView::Nothing
        },
        EndpointView::Unavailable => DialView::Nothing,
    }
}

/// Why a client for an endpoint has no channel, if it has none.
pub open spec fn reason_for(endpoint: EndpointView, unix_sockets: bool) -> Option<Seq<char>> {
    match endpoint {
        EndpointView::Unavailable => Some(marked_unavailable()),
        EndpointView::UnixSocket(_) => if unix_sockets {
            None
        } else {
            Some(unix_sockets_unsupported())
        },
        _ => None,
    }
}

/// The content of a [`CommandClient`].
pub struct ClientView {
    /// The endpoint the client was made for.
    pub endpoint: EndpointView,
    /// Why there is no channel; `None` for a client with a channel.
    pub unavailable: Option<Seq<char>>,
    /// How long the client waits for each response.
    pub timeout: Duration,
}

/// A client of the host's command channel. It wraps one transport for its
/// whole life, or none at all: a client without a channel has the same
/// operations as any other, and each of them fails at once with the reason.
#[derive(Debug)]
pub struct CommandClient {
    endpoint: CommandEndpoint,
    unavailable: Option<String>,
    timeout: Duration,
}

impl View for CommandClient {
    type V = ClientView;

    closed spec fn view(&self) -> ClientView {
        ClientView {
            endpoint: self.endpoint@,
            unavailable: self.unavailable.deep_view(),
            timeout: self.timeout,
        }
    }
}

/// Whether `frame` is one whole line: it ends in a line feed and holds no
/// other.
pub open spec fn whole_line(frame: Seq<char>) -> bool {
    &&& frame.len() > 0
    &&& frame.last() == '\n'
    &&& !frame.drop_last().contains('\n')
}

/// What is on the wire once the given frames were written one after
/// another, each in one piece.
pub open spec fn written_in_turn(frames: Seq<Seq<char>>) -> Seq<char>
    decreases frames.len(),
{
    if frames.len() == 0 {
        Seq::empty()
    } else {
        frames.first() + written_in_turn(frames.drop_first())
    }
}

/// The lines that a reader takes from a stream, each with its line feed.
/// What follows the last line feed is no line yet.
pub open spec fn lines_read(stream: Seq<char>) -> Seq<Seq<char>>
    decreases stream.len(),
{
    let at = position(stream, '\n');
    if 0 <= at < stream.len() {
        seq![stream.take(at + 1)] + lines_read(stream.skip(at + 1))
    } else {
        Seq::empty()
    }
}

/// What `send` answers: for a client without a channel its reason, and
/// otherwise the request's JSON text with a line feed after it, which is
/// one whole line, or a serialization error where there is no such text.
pub open spec fn transmit_for(client: ClientView, request: RequestView, r: Transmit) -> bool {
    match client.unavailable {
        Some(reason) => r matches Transmit::Abort(CommandError::Unavailable(given)) && given@
            == reason,
        None => match json_text(request_document(request)) {
            Some(line) => r matches Transmit::Frame(frame) && frame@ == line.push('\n')
                && whole_line(frame@),
            None => r matches Transmit::Abort(CommandError::Serialization(_)),
        },
    }
}

/// What `written` answers: for a client without a channel its reason; the
/// transport's error where the write failed; otherwise to wait for the
/// client's own timeout.
pub open spec fn await_for(
    client: ClientView,
    outcome: Result<(), std::io::Error>,
    r: Await,
) -> bool {
    match client.unavailable {
        Some(reason) => r matches Await::Abort(CommandError::Unavailable(given)) && given@
            == reason,
        None => match outcome {
            Ok(_) => r == Await::Reply(client.timeout),
            Err(error) => r == Await::Abort(CommandError::Io(error)),
        },
    }
}

/// How a response is handed to the caller: as it is where the host reports
/// success, and otherwise as a failure that carries the host's diagnostic,
/// or the generic one where the host gave none, and the payload.
pub open spec fn verdict_on(
    response: ResponseView,
    r: Result<CommandResponse, CommandError>,
) -> bool {
    if response.ok {
        r matches Ok(given) && given@ == response
    } else {
        r matches Err(CommandError::CommandFailure { diagnostic, payload }) && diagnostic@ == (
        match response.diagnostic {
            Some(text) => text,
            None => generic_diagnostic(),
        }) && crate::json::json_of(payload) == response.payload
    }
}

/// What a line read from the transport comes to: a closed transport where
/// it is empty, a serialization error where it is no response, and
/// otherwise the verdict on the response it holds.
pub open spec fn line_result(line: Seq<char>, r: Result<CommandResponse, CommandError>) -> bool {
    if line.len() == 0 {
        r matches Err(CommandError::TransportClosed)
    } else {
        match read_line(line, |doc: Json| response_in(doc)) {
            Some(response) => verdict_on(response, r),
            None => r matches Err(CommandError::Serialization(_)),
        }
    }
}

/// What `received` answers: for a client without a channel its reason; a
/// timeout that carries the client's own; the transport's error where
/// reading failed; otherwise what the line comes to.
pub open spec fn result_for(
    client: ClientView,
    arrival: Arrival,
    r: Result<CommandResponse, CommandError>,
) -> bool {
    match client.unavailable {
        Some(reason) => r matches Err(CommandError::Unavailable(given)) && given@ == reason,
        None => match arrival {
            Arrival::TimedOut => r == Err::<CommandResponse, CommandError>(
                CommandError::Timeout(client.timeout),
            ),
            Arrival::Failed(error) => r == Err::<CommandResponse, CommandError>(
                CommandError::Io(error),
            ),
            Arrival::Line(line) => line_result(line@, r),
        },
    }
}

/// The default timeout.
pub fn default_timeout() -> (r: Duration)
    ensures
        r == seconds(DEFAULT_TIMEOUT_SECS),
{
    Duration::from_secs(DEFAULT_TIMEOUT_SECS)
}

/// Ends a line of JSON text, which makes it a frame.
pub fn frame(line: String) -> (r: String)
    ensures
        r@ == line@.push('\n'),
{
    proof {
        reveal_strlit("\n");
    }
    line.concat("\n")
}

/// Hands a response to the caller as a success or as a failure.
pub fn verdict(response: CommandResponse) -> (r: Result<CommandResponse, CommandError>)
    ensures
        verdict_on(response@, r),
{
    if response.ok {
        Ok(response)
    } else {
        let diagnostic = match response.diagnostic {
            Some(text) => text,
            None => String::from_str("host returned failure"),
        };
        Err(CommandError::CommandFailure { diagnostic, payload: response.payload })
    }
}

/// Reads the response in a line that came from the transport.
pub fn read_frame(line: &str) -> (r: Result<CommandResponse, CommandError>)
    ensures
        line_result(line@, r),
{
    if line.is_empty() {
        return Err(CommandError::TransportClosed);
    }
    match CommandResponse::decode(line) {
        Ok(response) => verdict(response),
        Err(error) => Err(CommandError::Serialization(error)),
    }
}

impl CommandEndpoint {
    /// The transport that a client for this endpoint is to be given.
    /// Where the platform has no Unix domain sockets there is none for one.
    pub fn dial(&self, unix_sockets: bool) -> (r: Dial)
        ensures
            r@ == dial_for(self@, unix_sockets),
            r@ is Nothing <==> reason_for(self@, unix_sockets) is Some,
    {
        match self {
            CommandEndpoint::Stdio => Dial::Stdio,
            CommandEndpoint::Tcp(address) => Dial::Tcp(address.clone()),
            CommandEndpoint::UnixSocket(path) => {
                if unix_sockets {
                    Dial::Unix(path.clone())
                } else {
                    Dial::Nothing
                }
            },
            CommandEndpoint::Unavailable => Dial::Nothing,
        }
    }
}

impl Clone for CommandClient {
    /// A second handle on the same channel.
    fn clone(&self) -> (r: Self)
        ensures
            r@ == self@,
    {
        proof {
            use_type_invariant(self);
        }
        let unavailable = match &self.unavailable {
            Some(reason) => Some(reason.clone()),
            None => None,
        };
        CommandClient { endpoint: self.endpoint.clone(), unavailable, timeout: self.timeout }
    }
}

impl CommandClient {
    #[verifier::type_invariant]
    spec fn consistent(self) -> bool {
        self.endpoint is Unavailable ==> self.unavailable is Some
    }

    /// Makes the client for an endpoint, with the default timeout.
    /// `opened` says how opening the transport went that the endpoint's
    /// [`dial`](CommandEndpoint::dial) names.
    pub fn connect(
        endpoint: CommandEndpoint,
        unix_sockets: bool,
        opened: Result<(), std::io::Error>,
    ) -> (r: Result<Self, CommandError>)
        ensures
            match r {
                Ok(client) => {
                    &&& client@.endpoint == endpoint@
                    &&& client@.unavailable == reason_for(endpoint@, unix_sockets)
                    &&& client@.timeout == seconds(DEFAULT_TIMEOUT_SECS)
                    &&& (dial_for(endpoint@, unix_sockets).opens_socket() ==> opened is Ok)
                },
                Err(error) => {
                    &&& dial_for(endpoint@, unix_sockets).opens_socket()
                    &&& opened matches Err(cause)
                    &&& error == CommandError::Io(cause)
                },
            },
    {
        CommandClient::connect_with_timeout(endpoint, default_timeout(), unix_sockets, opened)
    }

    /// Makes the client for an endpoint, to wait for each response no
    /// longer than `timeout`. Connecting fails only where a socket had to be
    /// opened and could not be.
    pub fn connect_with_timeout(
        endpoint: CommandEndpoint,
        timeout: Duration,
        unix_sockets: bool,
        opened: Result<(), std::io::Error>,
    ) -> (r: Result<Self, CommandError>)
        ensures
            match r {
                Ok(client) => {
                    &&& client@.endpoint == endpoint@
                    &&& client@.unavailable == reason_for(endpoint@, unix_sockets)
                    &&& client@.timeout == timeout
                    &&& (dial_for(endpoint@, unix_sockets).opens_socket() ==> opened is Ok)
                },
                Err(error) => {
                    &&& dial_for(endpoint@, unix_sockets).opens_socket()
                    &&& opened matches Err(cause)
                    &&& error == CommandError::Io(cause)
                },
            },
    {
        let unavailable = match &endpoint {
            CommandEndpoint::Stdio => None,
            CommandEndpoint::Tcp(_) => {
                if let Err(cause) = opened {
                    return Err(CommandError::Io(cause));
                }
                None
            },
            CommandEndpoint::UnixSocket(_) => {
                if unix_sockets {
                    if let Err(cause) = opened {
                        return Err(CommandError::Io(cause));
                    }
                    None
                } else {
                    Some(String::from_str("unix domain sockets are not supported on this platform"))
                }
            },
            CommandEndpoint::Unavailable => Some(
                String::from_str("command endpoint marked unavailable"),
            ),
        };
        Ok(CommandClient { endpoint, unavailable, timeout })
    }

    /// A client that has no channel and says so, with `reason`, whenever it
    /// is used. It serves hosts that have no command bus.
    pub fn unavailable(reason: &str) -> (r: Self)
        ensures
            r@.endpoint == EndpointView::Unavailable,
            r@.unavailable == Some(reason@),
            r@.timeout == seconds(DEFAULT_TIMEOUT_SECS),
    {
        CommandClient {
            endpoint: CommandEndpoint::Unavailable,
            unavailable: Some(reason.to_owned()),
            timeout: default_timeout(),
        }
    }

    /// The endpoint this client was made for.
    pub fn endpoint(&self) -> (r: &CommandEndpoint)
        ensures
            r@ == self@.endpoint,
            r@ is Unavailable ==> self@.unavailable is Some,
    {
        proof {
            use_type_invariant(self);
        }
        &self.endpoint
    }

    /// How long this client waits for each response.
    pub fn timeout(&self) -> (r: Duration)
        ensures
            r == self@.timeout,
    {
        self.timeout
    }

    /// Why this client has no channel, if it has none.
    pub fn unavailable_reason(&self) -> (r: Option<&String>)
        ensures
            r.deep_view() == self@.unavailable,
    {
        self.unavailable.as_ref()
    }

    /// Begins a command: says what to write to the transport.
    pub fn send(&self, request: &CommandRequest) -> (r: Transmit)
        ensures
            transmit_for(self@, request@, r),
    {
        if let Some(reason) = &self.unavailable {
            return Transmit::Abort(CommandError::Unavailable(reason.clone()));
        }
        match request.encode() {
            Ok(line) => {
                Transmit::Frame(frame(line))
            },
            Err(error) => Transmit::Abort(CommandError::Serialization(error)),
        }
    }

    /// Goes on with a command once its frame is written, or could not be.
    pub fn written(&self, outcome: Result<(), std::io::Error>) -> (r: Await)
        ensures
            await_for(self@, outcome, r),
    {
        if let Some(reason) = &self.unavailable {
            return Await::Abort(CommandError::Unavailable(reason.clone()));
        }
        match outcome {
            Ok(_) => Await::Reply(self.timeout),
            Err(error) => Await::Abort(CommandError::Io(error)),
        }
    }

    /// Ends a command: turns what arrived into the caller's result.
    pub fn received(&self, arrival: Arrival) -> (r: Result<CommandResponse, CommandError>)
        ensures
            result_for(self@, arrival, r),
    {
        if let Some(reason) = &self.unavailable {
            return Err(CommandError::Unavailable(reason.clone()));
        }
        match arrival {
            Arrival::TimedOut => Err(CommandError::Timeout(self.timeout)),
            Arrival::Failed(error) => Err(CommandError::Io(error)),
            Arrival::Line(line) => read_frame(line.as_str()),
        }
    }
}

/// A client without a channel fails every step of a command at once, with
/// the reason it was made with, and never asks for anything to be written
/// or read.
pub proof fn unavailable_client_fails_at_once(
    client: ClientView,
    reason: Seq<char>,
    request: RequestView,
    transmit: Transmit,
    outcome: Result<(), std::io::Error>,
    step: Await,
    arrival: Arrival,
    result: Result<CommandResponse, CommandError>,
)
    requires
        client.unavailable == Some(reason),
        transmit_for(client, request, transmit),
        await_for(client, outcome, step),
        result_for(client, arrival, result),
    ensures
        transmit matches Transmit::Abort(CommandError::Unavailable(given)) && given@ == reason,
        step matches Await::Abort(CommandError::Unavailable(given)) && given@ == reason,
        result matches Err(CommandError::Unavailable(given)) && given@ == reason,
{
}

/// Whatever a client hands out to be written is one whole line, so that
/// writers who take turns never tear a line or run two together.
pub proof fn frames_are_whole_lines(client: ClientView, request: RequestView, transmit: Transmit)
    requires
        transmit_for(client, request, transmit),
    ensures
        transmit matches Transmit::Frame(frame) ==> whole_line(frame@),
{
}

/// Frames that are written in turn arrive as they were written: whoever
/// reads the wire line by line reads exactly the frames, in the order of the
/// writes, and nothing is left over. This is what taking turns at the
/// writer buys; it says nothing of which answer belongs to which request.
pub proof fn frames_written_in_turn_arrive_whole(frames: Seq<Seq<char>>)
    requires
        forall|i: int| 0 <= i < frames.len() ==> whole_line(#[trigger] frames[i]),
    ensures
        lines_read(written_in_turn(frames)) == frames,
    decreases frames.len(),
{
    if frames.len() > 0 {
        let first = frames.first();
        let rest = frames.drop_first();
        let stream = written_in_turn(frames);
        assert forall|j: int| 0 <= j < first.len() - 1 implies #[trigger] stream[j] != '\n' by {
            assert(stream[j] == first.drop_last()[j]);
            if stream[j] == '\n' {
            }
        }
        lemma_position(stream, '\n', first.len() - 1);
        assert(stream.take(first.len() as int) =~= first);
        assert(stream.skip(first.len() as int) =~= written_in_turn(rest));
        frames_written_in_turn_arrive_whole(rest);
    } else {
    }
}

/// A stream that ends before any byte arrives is reported as closed, never
/// as a message that could not be read.
pub proof fn closed_transport_is_no_decoding_error(
    client: ClientView,
    line: String,
    result: Result<CommandResponse, CommandError>,
)
    requires
        client.unavailable is None,
        line@.len() == 0,
        result_for(client, Arrival::Line(line), result),
    ensures
        result matches Err(CommandError::TransportClosed),
{
}

/// A timeout is reported with the time that the client was made to wait,
/// which is also the time it asked the driver to wait.
pub proof fn timeout_carries_the_clients_own(
    client: ClientView,
    step: Await,
    result: Result<CommandResponse, CommandError>,
)
    requires
        client.unavailable is None,
        await_for(client, Ok(()), step),
        result_for(client, Arrival::TimedOut, result),
    ensures
        step == Await::Reply(client.timeout),
        result == Err::<CommandResponse, CommandError>(CommandError::Timeout(client.timeout)),
{
}

/// A command succeeds only with a response in which the host says `ok`, and
/// a response in which it does not always comes back as a command failure.
pub proof fn success_is_the_hosts_word(
    response: ResponseView,
    result: Result<CommandResponse, CommandError>,
)
    requires
        verdict_on(response, result),
    ensures
        result is Ok <==> response.ok,
        result matches Ok(given) ==> given@.ok,
        result matches Err(error) ==> error is CommandFailure,
{
}

} // verus!
