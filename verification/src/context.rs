//! What a request handler is given: the record of the request, the command
//! client, and the platform.

use crate::client::{transmit_for, ClientView, CommandClient, Transmit};
use crate::environment::Environment;
use crate::message::CommandRequest;
use crate::metadata::{metadata_for, with_rebuilt_url, MetadataView, RequestMetadata};
use crate::platform::{PlatformView, RuntimePlatform};
use crate::request::RequestHead;
use vstd::prelude::*;

verus! {

/// Why a handler could not be given its context: the serving layer did not
/// attach what the context is made of.
#[derive(Clone, Copy, Debug, PartialEq, Eq, Structural)]
pub enum ContainerContextRejection {
    MissingCommandClient,
    MissingRuntimePlatform,
}

/// The HTTP status that a rejection is answered with.
pub const REJECTION_STATUS: u16 = 500;

impl ContainerContextRejection {
    /// The sentence that says what is missing.
    pub open spec fn sentence(self) -> Seq<char> {
        match self {
            ContainerContextRejection::MissingCommandClient => {
                "command client missing from request extensions"@
            },
            ContainerContextRejection::MissingRuntimePlatform => {
                "runtime platform missing from request extensions"@
            },
        }
    }

    /// The rejection as a sentence for people.
    pub fn message(&self) -> (r: String)
        ensures
            r@ == self.sentence(),
    {
        match self {
            ContainerContextRejection::MissingCommandClient => String::from_str(
                "command client missing from request extensions",
            ),
            ContainerContextRejection::MissingRuntimePlatform => String::from_str(
                "runtime platform missing from request extensions",
            ),
        }
    }

    /// The status and body of the response that answers the request.
    pub fn into_response(self) -> (r: (u16, String))
        ensures
            r.0 == REJECTION_STATUS,
            r.1@ == self.sentence(),
    {
        (REJECTION_STATUS, self.message())
    }
}

/// The context of one request.
#[derive(Clone, Debug)]
pub struct ContainerContext {
    metadata: RequestMetadata,
    command_client: CommandClient,
    platform: RuntimePlatform,
}

/// The content of a [`ContainerContext`].
pub struct ContextView {
    pub metadata: MetadataView,
    pub command_client: ClientView,
    pub platform: PlatformView,
}

impl View for ContainerContext {
    type V = ContextView;

    closed spec fn view(&self) -> ContextView {
        ContextView {
            metadata: self.metadata@,
            command_client: self.command_client@,
            platform: self.platform@,
        }
    }
}

impl ContainerContext {
    /// The record of the request.
    pub fn metadata(&self) -> (r: &RequestMetadata)
        ensures
            r@ == self@.metadata,
    {
        &self.metadata
    }

    /// The client of the host's command channel.
    pub fn command_client(&self) -> (r: &CommandClient)
        ensures
            r@ == self@.command_client,
    {
        &self.command_client
    }

    /// The platform the container runs on.
    pub fn platform(&self) -> (r: &RuntimePlatform)
        ensures
            r@ == self@.platform,
    {
        &self.platform
    }

    /// Begins a command on the host's channel, as the client's `send` does.
    pub fn invoke(&self, request: &CommandRequest) -> (r: Transmit)
        ensures
            transmit_for(self@.command_client, request@, r),
    {
        self.command_client.send(request)
    }

    /// Makes the context of a request from its head and from what the
    /// serving layer attached to it. The command client is looked for
    /// first, then the platform.
    pub fn from_request_parts(
        head: &RequestHead,
        command_client: Option<CommandClient>,
        platform: Option<RuntimePlatform>,
        env: &Environment,
    ) -> (r: Result<Self, ContainerContextRejection>)
        ensures
            match r {
                Ok(context) => {
                    &&& command_client matches Some(client)
                    &&& platform matches Some(given)
                    &&& context@.command_client == client@
                    &&& context@.platform == given@
                    &&& context@.metadata == with_rebuilt_url(metadata_for(head@, given@, env@))
                },
                Err(rejection) => if command_client is None {
                    rejection == ContainerContextRejection::MissingCommandClient
                } else {
                    platform is None && rejection
                        == ContainerContextRejection::MissingRuntimePlatform
                },
            },
    {
        let command_client = match command_client {
            Some(client) => client,
            None => {
                return Err(ContainerContextRejection::MissingCommandClient);
            },
        };
        let platform = match platform {
            Some(platform) => platform,
            None => {
                return Err(ContainerContextRejection::MissingRuntimePlatform);
            },
        };
        let mut metadata = RequestMetadata::from_parts(head, &platform, env);
        metadata.rebuild_raw_url_if_needed();
        Ok(ContainerContext { metadata, command_client, platform })
    }
}

} // verus!
