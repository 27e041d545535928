//! What the runtime needs to know before it starts serving: where to
//! listen, which platform it runs on, and how to reach the host's command
//! channel, if there is one.

use crate::address::{BindAddress, IpAddress};
use crate::endpoint::{endpoint_of, CommandEndpoint, EndpointView};
use crate::environment::{lookup, Environment};
use crate::platform::{platform_in, CloudflareView, PlatformView, RuntimePlatform};
use crate::text;
use crate::text::unsigned_in;
use vstd::prelude::*;

verus! {

/// `dotenvy::Error`, of which nothing is seen but through
/// [`file_not_found`].
#[verifier::external_type_specification]
#[verifier::external_body]
pub struct ExDotenvError(dotenvy::Error);

/// Whether a `dotenvy::Error` says that no `.env` file was found, as
/// `dotenvy::Error::not_found` tells it.
pub uninterp spec fn file_not_found(error: dotenvy::Error) -> bool;

/// Calls `dotenvy::Error::not_found`. Assumed: the answer depends on the
/// error alone.
#[verifier::external_body]
fn not_found(error: &dotenvy::Error) -> (r: bool)
    ensures
        r == file_not_found(*error),
{
    error.not_found()
}

/// Formats a `dotenvy::Error` with `{}`. Nothing is assumed of the text.
#[verifier::external_body]
fn describe_dotenv_error(error: &dotenvy::Error) -> String {
    format!("{}", error)
}

/// The port that a container listens on under Cloudflare, and anywhere
/// else but Cloud Run.
pub const DEFAULT_CLOUDFLARE_PORT: u16 = 8787;

/// The port that a container listens on under Cloud Run.
pub const DEFAULT_CLOUD_RUN_PORT: u16 = 8080;

/// Why there is no command channel on Cloud Run.
pub open spec fn cloud_run_command_reason() -> Seq<char> {
    "host command channel is not available on Google Cloud Run"@
}

/// Why a configuration could not be made.
#[derive(Debug)]
pub enum ConfigError {
    /// The command endpoint is set to a string of no known form.
    InvalidCommandEndpoint(String),
    /// The `.env` file is there and could not be loaded.
    Dotenv(dotenvy::Error),
}

/// The configuration of the runtime.
#[derive(Clone, Debug)]
pub struct RuntimeConfig {
    pub bind_addr: BindAddress,
    pub platform: RuntimePlatform,
    pub command_endpoint: Option<CommandEndpoint>,
    pub command_disabled_reason: Option<String>,
}

/// The content of a [`RuntimeConfig`].
pub struct ConfigView {
    pub bind_addr: BindAddress,
    pub platform: PlatformView,
    pub command_endpoint: Option<EndpointView>,
    pub command_disabled_reason: Option<Seq<char>>,
}

/// The content of an optional endpoint.
pub open spec fn endpoint_view(endpoint: Option<CommandEndpoint>) -> Option<EndpointView> {
    match endpoint {
        Some(e) => Some(e@),
        None => None,
    }
}

/// The content of an optional platform.
pub open spec fn platform_view(platform: Option<RuntimePlatform>) -> Option<PlatformView> {
    match platform {
        Some(p) => Some(p@),
        None => None,
    }
}

impl View for RuntimeConfig {
    type V = ConfigView;

    open spec fn view(&self) -> ConfigView {
        ConfigView {
            bind_addr: self.bind_addr,
            platform: self.platform@,
            command_endpoint: endpoint_view(self.command_endpoint),
            command_disabled_reason: self.command_disabled_reason.deep_view(),
        }
    }
}

impl ConfigView {
    /// A configuration names a command endpoint or gives the reason for
    /// having none, and never both.
    pub open spec fn settled(self) -> bool {
        self.command_endpoint is Some <==> self.command_disabled_reason is None
    }
}

/// Programmatic overrides for a [`RuntimeConfig`].
#[derive(Clone, Debug)]
pub struct RuntimeConfigBuilder {
    bind_addr: Option<BindAddress>,
    platform: Option<RuntimePlatform>,
    command_endpoint: Option<CommandEndpoint>,
    command_disabled_reason: Option<String>,
}

/// The content of a [`RuntimeConfigBuilder`]: what has been set so far.
pub struct BuilderView {
    pub bind_addr: Option<BindAddress>,
    pub platform: Option<PlatformView>,
    pub command_endpoint: Option<EndpointView>,
    pub command_disabled_reason: Option<Seq<char>>,
}

impl View for RuntimeConfigBuilder {
    type V = BuilderView;

    closed spec fn view(&self) -> BuilderView {
        BuilderView {
            bind_addr: self.bind_addr,
            platform: platform_view(self.platform),
            command_endpoint: endpoint_view(self.command_endpoint),
            command_disabled_reason: self.command_disabled_reason.deep_view(),
        }
    }
}

/// The port that the variable `name` sets, if it is set to one.
pub open spec fn port_named(env: Seq<(Seq<char>, Seq<char>)>, name: Seq<char>) -> Option<u16> {
    match lookup(env, name) {
        Some(text) => match unsigned_in(text, 0xffff) {
            Some(n) => Some(n as u16),
            None => None,
        },
        None => None,
    }
}

/// The port that a platform listens on when the environment sets none.
pub open spec fn default_port(platform: PlatformView) -> u16 {
    if platform is CloudRun {
        DEFAULT_CLOUD_RUN_PORT
    } else {
        DEFAULT_CLOUDFLARE_PORT
    }
}

/// The port to listen on: what `PORT` sets, else what `CF_CONTAINER_PORT`
/// sets, else the platform's default. A variable that is not set to a port
/// number counts as unset.
pub open spec fn port_for(platform: PlatformView, env: Seq<(Seq<char>, Seq<char>)>) -> u16 {
    match port_named(env, "PORT"@) {
        Some(port) => port,
        None => match port_named(env, "CF_CONTAINER_PORT"@) {
            Some(port) => port,
            None => default_port(platform),
        },
    }
}

/// The platform assumed where none is given.
pub open spec fn default_platform() -> PlatformView {
    PlatformView::Cloudflare(CloudflareView { worker_name: None })
}

/// The address to listen on where none is given: every interface, at the
/// port for the platform.
pub open spec fn default_bind_addr(
    platform: PlatformView,
    env: Seq<(Seq<char>, Seq<char>)>,
) -> BindAddress {
    BindAddress { ip: IpAddress::unspecified(), port: port_for(platform, env) }
}

/// The configuration that the environment describes, or the value of
/// `CF_CMD_ENDPOINT` where that is no endpoint. `container_addr` is the
/// address that `CF_CONTAINER_ADDR` names, if it names one.
///
/// Without `CF_CMD_ENDPOINT` the channel is the standard streams, except on
/// Cloud Run, which has none.
pub open spec fn config_in(
    env: Seq<(Seq<char>, Seq<char>)>,
    container_addr: Option<IpAddress>,
) -> Result<ConfigView, Seq<char>> {
    let platform = platform_in(env);
    let bind_addr = BindAddress {
        ip: match container_addr {
            Some(ip) => ip,
            None => IpAddress::unspecified(),
        },
        port: port_for(platform, env),
    };
    match lookup(env, "CF_CMD_ENDPOINT"@) {
        Some(text) => match endpoint_of(text) {
            Ok(endpoint) => Ok(
                ConfigView {
                    bind_addr,
                    platform,
                    command_endpoint: Some(endpoint),
                    command_disabled_reason: None,
                },
            ),
            Err(_) => Err(text),
        },
        None => if platform is CloudRun {
            Ok(
                ConfigView {
                    bind_addr,
                    platform,
                    command_endpoint: None,
                    command_disabled_reason: Some(cloud_run_command_reason()),
                },
            )
        } else {
            Ok(
                ConfigView {
                    bind_addr,
                    platform,
                    command_endpoint: Some(EndpointView::Stdio),
                    command_disabled_reason: None,
                },
            )
        },
    }
}

/// The configuration that a builder makes: what was set, and defaults for
/// the rest. A disabled channel leaves no endpoint, whatever was set.
pub open spec fn built(builder: BuilderView, env: Seq<(Seq<char>, Seq<char>)>) -> ConfigView {
    let platform = match builder.platform {
        Some(platform) => platform,
        None => default_platform(),
    };
    ConfigView {
        bind_addr: match builder.bind_addr {
            Some(addr) => addr,
            None => default_bind_addr(platform, env),
        },
        platform,
        command_endpoint: if builder.command_disabled_reason is Some {
            None
        } else {
            match builder.command_endpoint {
                Some(endpoint) => Some(endpoint),
                None => Some(EndpointView::Stdio),
            }
        },
        command_disabled_reason: builder.command_disabled_reason,
    }
}

/// Whether the values of the `.env` file are in force, as far as there is
/// such a file: it was loaded, or it is not there.
pub open spec fn overrides_loaded(loaded: Result<(), dotenvy::Error>) -> bool {
    match loaded {
        Ok(_) => true,
        Err(error) => file_not_found(error),
    }
}

/// Decides what loading the `.env` file comes to: a file that is not there
/// is no error, any other failure is.
pub fn load_env_overrides(loaded: Result<(), dotenvy::Error>) -> (r: Result<(), ConfigError>)
    ensures
        match r {
            Ok(_) => overrides_loaded(loaded),
            Err(ConfigError::Dotenv(cause)) => !overrides_loaded(loaded) && loaded == Err::<
                (),
                dotenvy::Error,
            >(cause),
            Err(ConfigError::InvalidCommandEndpoint(_)) => false,
        },
{
    match loaded {
        Ok(_) => Ok(()),
        Err(error) => {
            if not_found(&error) {
                Ok(())
            } else {
                Err(ConfigError::Dotenv(error))
            }
        },
    }
}

/// The port that the variable `name` sets, if it is set to one.
fn port_from(env: &Environment, name: &str) -> (r: Option<u16>)
    ensures
        r == port_named(env@, name@),
{
    match env.var(name) {
        Some(text) => text::parse_u16(text.as_str()),
        None => None,
    }
}

/// The port to listen on, for a platform in an environment.
pub fn resolve_port(platform: &RuntimePlatform, env: &Environment) -> (r: u16)
    ensures
        r == port_for(platform@, env@),
{
    if let Some(port) = port_from(env, "PORT") {
        return port;
    }
    if let Some(port) = port_from(env, "CF_CONTAINER_PORT") {
        return port;
    }
    match platform {
        RuntimePlatform::CloudRun(_) => DEFAULT_CLOUD_RUN_PORT,
        _ => DEFAULT_CLOUDFLARE_PORT,
    }
}

impl From<dotenvy::Error> for ConfigError {
    /// A `.env` file that could not be loaded.
    fn from(error: dotenvy::Error) -> (r: Self) {
        ConfigError::Dotenv(error)
    }
}

impl vstd::std_specs::convert::FromSpecImpl<dotenvy::Error> for ConfigError {
    open spec fn obeys_from_spec() -> bool {
        true
    }

    open spec fn from_spec(error: dotenvy::Error) -> Self {
        ConfigError::Dotenv(error)
    }
}

impl ConfigError {
    /// The error as a sentence for people. For a `.env` file that could not
    /// be loaded, what follows the heading is the loader's own text.
    pub fn message(&self) -> (r: String)
        ensures
            match *self {
                ConfigError::InvalidCommandEndpoint(value) => r@ == "invalid command endpoint: "@
                    + value@,
                ConfigError::Dotenv(_) => "failed to load .env overrides: "@.is_prefix_of(r@),
            },
    {
        match self {
            ConfigError::InvalidCommandEndpoint(value) => String::from_str(
                "invalid command endpoint: ",
            ).concat(value.as_str()),
            ConfigError::Dotenv(error) => String::from_str(
                "failed to load .env overrides: ",
            ).concat(describe_dotenv_error(error).as_str()),
        }
    }
}

impl RuntimeConfig {
    /// Reads the configuration from the environment.
    ///
    /// `loaded` says how loading the `.env` file went, whose values
    /// override what was in the environment before; `env` is the
    /// environment after that, and `container_addr` the address that
    /// `CF_CONTAINER_ADDR` names in it, if it names one. A file that could
    /// not be loaded, other than for not being there, ends the matter.
    pub fn from_env(
        loaded: Result<(), dotenvy::Error>,
        env: &Environment,
        container_addr: Option<IpAddress>,
    ) -> (r: Result<Self, ConfigError>)
        ensures
            match r {
                Ok(config) => overrides_loaded(loaded) && config_in(env@, container_addr) == Ok::<
                    ConfigView,
                    Seq<char>,
                >(config@) && config@.settled(),
                Err(ConfigError::InvalidCommandEndpoint(value)) => overrides_loaded(loaded)
                    && config_in(env@, container_addr) == Err::<ConfigView, Seq<char>>(value@),
                Err(ConfigError::Dotenv(cause)) => !overrides_loaded(loaded) && loaded == Err::<
                    (),
                    dotenvy::Error,
                >(cause),
            },
    {
        if let Err(error) = load_env_overrides(loaded) {
            return Err(error);
        }
        let platform = RuntimePlatform::detect(env);
        let port = resolve_port(&platform, env);
        let ip = match container_addr {
            Some(ip) => ip,
            None => IpAddress::V4(0, 0, 0, 0),
        };
        let bind_addr = BindAddress { ip, port };
        let command_endpoint = match env.var("CF_CMD_ENDPOINT") {
            Some(value) => match CommandEndpoint::parse(value.as_str()) {
                Ok(endpoint) => Some(endpoint),
                Err(_) => {
                    return Err(ConfigError::InvalidCommandEndpoint(value));
                },
            },
            None => None,
        };
        let (command_endpoint, command_disabled_reason) = match command_endpoint {
            Some(endpoint) => (Some(endpoint), None),
            None => match platform {
                RuntimePlatform::CloudRun(_) => (
                    None,
                    Some(
                        String::from_str(
                            "host command channel is not available on Google Cloud Run",
                        ),
                    ),
                ),
                _ => (Some(CommandEndpoint::Stdio), None),
            },
        };
        Ok(RuntimeConfig { bind_addr, platform, command_endpoint, command_disabled_reason })
    }

    /// A builder in which nothing is set yet.
    pub fn builder() -> (r: RuntimeConfigBuilder)
        ensures
            r@ == (BuilderView {
                bind_addr: None,
                platform: None,
                command_endpoint: None,
                command_disabled_reason: None,
            }),
    {
        RuntimeConfigBuilder {
            bind_addr: None,
            platform: None,
            command_endpoint: None,
            command_disabled_reason: None,
        }
    }

    /// The configuration in which nothing is overridden: every interface,
    /// the Cloudflare platform, and the standard streams for the channel.
    pub fn with_defaults(env: &Environment) -> (r: Self)
        ensures
            r@ == built(
                BuilderView {
                    bind_addr: None,
                    platform: None,
                    command_endpoint: None,
                    command_disabled_reason: None,
                },
                env@,
            ),
            r@.settled(),
    {
        RuntimeConfig::builder().build(env)
    }
}

impl RuntimeConfigBuilder {
    /// Sets the address to listen on.
    pub fn bind_addr(self, addr: BindAddress) -> (r: Self)
        ensures
            r@ == (BuilderView { bind_addr: Some(addr), ..self@ }),
    {
        RuntimeConfigBuilder {
            bind_addr: Some(addr),
            platform: self.platform,
            command_endpoint: self.command_endpoint,
            command_disabled_reason: self.command_disabled_reason,
        }
    }

    /// Sets the platform.
    pub fn platform(self, platform: RuntimePlatform) -> (r: Self)
        ensures
            r@ == (BuilderView { platform: Some(platform@), ..self@ }),
    {
        RuntimeConfigBuilder {
            bind_addr: self.bind_addr,
            platform: Some(platform),
            command_endpoint: self.command_endpoint,
            command_disabled_reason: self.command_disabled_reason,
        }
    }

    /// Sets the command endpoint, which enables the channel again if it
    /// was disabled.
    pub fn command_endpoint(self, endpoint: CommandEndpoint) -> (r: Self)
        ensures
            r@ == (BuilderView {
                command_endpoint: Some(endpoint@),
                command_disabled_reason: None,
                ..self@
            }),
    {
        RuntimeConfigBuilder {
            bind_addr: self.bind_addr,
            platform: self.platform,
            command_endpoint: Some(endpoint),
            command_disabled_reason: None,
        }
    }

    /// Disables the command channel, for the given reason.
    pub fn disable_command_channel(self, reason: &str) -> (r: Self)
        ensures
            r@ == (BuilderView {
                command_endpoint: None,
                command_disabled_reason: Some(reason@),
                ..self@
            }),
    {
        RuntimeConfigBuilder {
            bind_addr: self.bind_addr,
            platform: self.platform,
            command_endpoint: None,
            command_disabled_reason: Some(reason.to_owned()),
        }
    }

    /// Makes the configuration.
    pub fn build(self, env: &Environment) -> (r: RuntimeConfig)
        ensures
            r@ == built(self@, env@),
            r@.settled(),
    {
        let command_disabled_reason = self.command_disabled_reason;
        let platform = match self.platform {
            Some(platform) => platform,
            None => RuntimePlatform::default(),
        };
        let command_endpoint = if command_disabled_reason.is_some() {
            None
        } else {
            match self.command_endpoint {
                Some(endpoint) => Some(endpoint),
                None => Some(CommandEndpoint::Stdio),
            }
        };
        let bind_addr = match self.bind_addr {
            Some(addr) => addr,
            None => BindAddress {
                ip: IpAddress::V4(0, 0, 0, 0),
                port: resolve_port(&platform, env),
            },
        };
        RuntimeConfig { bind_addr, platform, command_endpoint, command_disabled_reason }
    }
}

/// Every configuration that a builder makes is settled, whatever was set
/// and in whatever order.
pub proof fn built_configuration_is_settled(builder: BuilderView, env: Seq<(Seq<char>, Seq<char>)>)
    ensures
        built(builder, env).settled(),
{
}

/// Every configuration read from an environment is settled.
pub proof fn configuration_from_environment_is_settled(
    env: Seq<(Seq<char>, Seq<char>)>,
    container_addr: Option<IpAddress>,
)
    ensures
        config_in(env, container_addr) matches Ok(config) ==> config.settled(),
{
}

} // verus!
