//! A runtime for containers that sit behind an edge worker, and a client
//! for the command channel that the worker's host offers them.
//!
//! The channel carries one JSON object per line: a request down, a response
//! up, over the container's standard streams, a TCP socket or a Unix domain
//! socket. [`client`] decides what goes over the channel and what an answer
//! means, [`message`] fixes the wire form, [`endpoint`] reads the endpoint
//! strings. Around them, [`platform`] and [`config`] read the environment,
//! and [`metadata`] puts together what is known of an inbound request.
//!
//! Nothing in this crate performs I/O. Sockets, the environment and the
//! HTTP server belong to the caller, who hands over plain values and acts
//! on the answers.

pub mod address;
pub mod client;
pub mod config;
pub mod context;
pub mod endpoint;
pub mod environment;
pub mod error;
pub mod fields;
pub mod hints;
pub mod host;
pub mod json;
pub mod message;
pub mod metadata;
pub mod platform;
pub mod request;
pub mod runtime;
pub mod text;
pub mod trace;

pub use crate::client::CommandClient;
pub use crate::config::{RuntimeConfig, RuntimeConfigBuilder};
pub use crate::context::ContainerContext;
pub use crate::endpoint::CommandEndpoint;
pub use crate::error::CommandError;
pub use crate::hints::ClientHints;
pub use crate::message::{CommandRequest, CommandResponse};
pub use crate::metadata::RequestMetadata;
pub use crate::platform::{CloudRunPlatform, CloudflarePlatform, RuntimePlatform};
pub use crate::runtime::ContainerflareRuntime;
pub use crate::trace::TraceContext;
