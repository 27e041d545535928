//! What the runtime decides before it serves: which transport to open for
//! the command channel, and which client to hand to the request handlers.
//! Listening and serving are left to the caller.

use crate::client::{
    dial_for, marked_unavailable, reason_for, seconds, CommandClient, Dial, DialView,
    DEFAULT_TIMEOUT_SECS,
};
use crate::config::{ConfigView, RuntimeConfig};
use crate::endpoint::EndpointView;
use crate::error::CommandError;
use vstd::prelude::*;

verus! {

/// A runtime, made of its configuration.
#[derive(Clone, Debug)]
pub struct ContainerflareRuntime {
    config: RuntimeConfig,
}

impl View for ContainerflareRuntime {
    type V = ConfigView;

    closed spec fn view(&self) -> ConfigView {
        self.config@
    }
}

/// The transport for a configuration: that of its endpoint, and none where
/// the channel is disabled.
pub open spec fn dial_of(config: ConfigView, unix_sockets: bool) -> DialView {
    match config.command_endpoint {
        Some(endpoint) => dial_for(endpoint, unix_sockets),
        None => DialView::Nothing,
    }
}

/// Why the client of a configuration has no channel, if it has none: the
/// endpoint's reason, or, where the channel is disabled, the reason given
/// for that.
pub open spec fn reason_of(config: ConfigView, unix_sockets: bool) -> Option<Seq<char>> {
    match config.command_endpoint {
        Some(endpoint) => reason_for(endpoint, unix_sockets),
        None => match config.command_disabled_reason {
            Some(reason) => Some(reason),
            None => Some(marked_unavailable()),
        },
    }
}

impl ContainerflareRuntime {
    /// A runtime with the given configuration.
    pub fn new(config: RuntimeConfig) -> (r: Self)
        ensures
            r@ == config@,
    {
        ContainerflareRuntime { config }
    }

    /// The configuration of the runtime.
    pub fn config(&self) -> (r: &RuntimeConfig)
        ensures
            r@ == self@,
    {
        &self.config
    }

    /// The transport that the command client is to be given.
    pub fn dial(&self, unix_sockets: bool) -> (r: Dial)
        ensures
            r@ == dial_of(self@, unix_sockets),
            r@ is Nothing <==> reason_of(self@, unix_sockets) is Some,
    {
        match &self.config.command_endpoint {
            Some(endpoint) => endpoint.dial(unix_sockets),
            None => Dial::Nothing,
        }
    }

    /// Makes the one command client of the runtime. `opened` says how
    /// opening the transport went that [`dial`](Self::dial) names. A
    /// runtime whose channel is disabled gets a client without a channel,
    /// and that cannot fail.
    pub fn command_client(&self, unix_sockets: bool, opened: Result<(), std::io::Error>) -> (r:
        Result<CommandClient, CommandError>)
        ensures
            match r {
                Ok(client) => {
                    &&& client@.endpoint == match self@.command_endpoint {
                        Some(endpoint) => endpoint,
                        None => EndpointView::Unavailable,
                    }
                    &&& client@.unavailable == reason_of(self@, unix_sockets)
                    &&& client@.timeout == seconds(DEFAULT_TIMEOUT_SECS)
                    &&& (dial_of(self@, unix_sockets).opens_socket() ==> opened is Ok)
                },
                Err(error) => {
                    &&& dial_of(self@, unix_sockets).opens_socket()
                    &&& opened matches Err(cause)
                    &&& error == CommandError::Io(cause)
                },
            },
    {
        match &self.config.command_endpoint {
            Some(endpoint) => CommandClient::connect(endpoint.clone(), unix_sockets, opened),
            None => match &self.config.command_disabled_reason {
                Some(reason) => Ok(CommandClient::unavailable(reason.as_str())),
                None => Ok(CommandClient::unavailable("command endpoint marked unavailable")),
            },
        }
    }
}

} // verus!
