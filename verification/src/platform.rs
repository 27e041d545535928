//! The platform a container runs on, inferred from the variables that the
//! platform injects into the environment.

use crate::environment::{lookup, Environment};
use crate::text::{first_of, or_else};
use vstd::prelude::*;

verus! {

/// What is known of a Cloudflare Containers deployment.
#[derive(Clone, Debug)]
pub struct CloudflarePlatform {
    pub worker_name: Option<String>,
}

/// The content of a [`CloudflarePlatform`].
pub struct CloudflareView {
    pub worker_name: Option<Seq<char>>,
}

impl View for CloudflarePlatform {
    type V = CloudflareView;

    open spec fn view(&self) -> CloudflareView {
        CloudflareView { worker_name: self.worker_name.deep_view() }
    }
}

/// What is known of a Google Cloud Run deployment.
#[derive(Clone, Debug)]
pub struct CloudRunPlatform {
    pub service: Option<String>,
    pub revision: Option<String>,
    pub configuration: Option<String>,
    pub project_id: Option<String>,
    pub region: Option<String>,
}

/// The content of a [`CloudRunPlatform`].
pub struct CloudRunView {
    pub service: Option<Seq<char>>,
    pub revision: Option<Seq<char>>,
    pub configuration: Option<Seq<char>>,
    pub project_id: Option<Seq<char>>,
    pub region: Option<Seq<char>>,
}

impl View for CloudRunPlatform {
    type V = CloudRunView;

    open spec fn view(&self) -> CloudRunView {
        CloudRunView {
            service: self.service.deep_view(),
            revision: self.revision.deep_view(),
            configuration: self.configuration.deep_view(),
            project_id: self.project_id.deep_view(),
            region: self.region.deep_view(),
        }
    }
}

/// The platform the container is executing inside.
#[derive(Clone, Debug)]
pub enum RuntimePlatform {
    Cloudflare(CloudflarePlatform),
    CloudRun(CloudRunPlatform),
    Generic,
}

/// The content of a [`RuntimePlatform`].
pub enum PlatformView {
    Cloudflare(CloudflareView),
    CloudRun(CloudRunView),
    Generic,
}

impl View for RuntimePlatform {
    type V = PlatformView;

    open spec fn view(&self) -> PlatformView {
        match self {
            RuntimePlatform::Cloudflare(platform) => PlatformView::Cloudflare(platform@),
            RuntimePlatform::CloudRun(platform) => PlatformView::CloudRun(platform@),
            RuntimePlatform::Generic => PlatformView::Generic,
        }
    }
}

/// The Cloudflare deployment that the environment shows: one is recognised
/// when the worker's name, the container's port or address, or the command
/// endpoint is set.
pub open spec fn cloudflare_in(env: Seq<(Seq<char>, Seq<char>)>) -> Option<CloudflareView> {
    let worker_name = lookup(env, "CONTAINERFLARE_WORKER"@);
    if worker_name.is_some() || lookup(env, "CF_CONTAINER_PORT"@).is_some() || lookup(
        env,
        "CF_CONTAINER_ADDR"@,
    ).is_some() || lookup(env, "CF_CMD_ENDPOINT"@).is_some() {
        Some(CloudflareView { worker_name })
    } else {
        None
    }
}

/// The Cloud Run deployment that the environment shows: one is recognised
/// when the service, the revision, the port or the project is set.
pub open spec fn cloud_run_in(env: Seq<(Seq<char>, Seq<char>)>) -> Option<CloudRunView> {
    let service = lookup(env, "K_SERVICE"@);
    let revision = lookup(env, "K_REVISION"@);
    let project_id = or_else(lookup(env, "GOOGLE_CLOUD_PROJECT"@), lookup(env, "GCLOUD_PROJECT"@));
    if service.is_some() || revision.is_some() || lookup(env, "PORT"@).is_some()
        || project_id.is_some() {
        Some(
            CloudRunView {
                service,
                revision,
                configuration: lookup(env, "K_CONFIGURATION"@),
                project_id,
                region: or_else(lookup(env, "GOOGLE_CLOUD_REGION"@), lookup(env, "REGION"@)),
            },
        )
    } else {
        None
    }
}

/// The platform that the environment shows. Cloudflare is looked for first,
/// then Cloud Run; anything else is a generic host.
pub open spec fn platform_in(env: Seq<(Seq<char>, Seq<char>)>) -> PlatformView {
    match cloudflare_in(env) {
        Some(platform) => PlatformView::Cloudflare(platform),
        None => match cloud_run_in(env) {
            Some(platform) => PlatformView::CloudRun(platform),
            None => PlatformView::Generic,
        },
    }
}

impl CloudflarePlatform {
    /// Reads the Cloudflare deployment from the environment, if it shows one.
    pub fn from_env(env: &Environment) -> (r: Option<Self>)
        ensures
            match r {
                Some(platform) => cloudflare_in(env@) == Some(platform@),
                None => cloudflare_in(env@) is None,
            },
    {
        let worker_name = env.var("CONTAINERFLARE_WORKER");
        let has_cf_env = worker_name.is_some() || env.is_set("CF_CONTAINER_PORT") || env.is_set(
            "CF_CONTAINER_ADDR",
        ) || env.is_set("CF_CMD_ENDPOINT");
        if has_cf_env {
            Some(CloudflarePlatform { worker_name })
        } else {
            None
        }
    }
}

impl Default for CloudflarePlatform {
    fn default() -> (r: Self)
        ensures
            r.worker_name is None,
    {
        CloudflarePlatform { worker_name: None }
    }
}

impl CloudRunPlatform {
    /// Reads the Cloud Run deployment from the environment, if it shows one.
    pub fn from_env(env: &Environment) -> (r: Option<Self>)
        ensures
            match r {
                Some(platform) => cloud_run_in(env@) == Some(platform@),
                None => cloud_run_in(env@) is None,
            },
    {
        let service = env.var("K_SERVICE");
        let revision = env.var("K_REVISION");
        let configuration = env.var("K_CONFIGURATION");
        let project_id = first_of(env.var("GOOGLE_CLOUD_PROJECT"), env.var("GCLOUD_PROJECT"));
        let region = first_of(env.var("GOOGLE_CLOUD_REGION"), env.var("REGION"));
        let has_run_env = service.is_some() || revision.is_some() || env.is_set("PORT")
            || project_id.is_some();
        if has_run_env {
            Some(CloudRunPlatform { service, revision, configuration, project_id, region })
        } else {
            None
        }
    }
}

impl Default for CloudRunPlatform {
    fn default() -> (r: Self)
        ensures
            r.service is None,
            r.revision is None,
            r.configuration is None,
            r.project_id is None,
            r.region is None,
    {
        CloudRunPlatform {
            service: None,
            revision: None,
            configuration: None,
            project_id: None,
            region: None,
        }
    }
}

impl Default for RuntimePlatform {
    fn default() -> (r: Self)
        ensures
            r matches RuntimePlatform::Cloudflare(platform) && platform.worker_name is None,
    {
        RuntimePlatform::Cloudflare(CloudflarePlatform::default())
    }
}

impl RuntimePlatform {
    /// Infers the platform from the variables that Cloudflare or Google
    /// Cloud Run inject.
    pub fn detect(env: &Environment) -> (r: Self)
        ensures
            r@ == platform_in(env@),
    {
        if let Some(platform) = CloudflarePlatform::from_env(env) {
            return RuntimePlatform::Cloudflare(platform);
        }
        if let Some(platform) = CloudRunPlatform::from_env(env) {
            return RuntimePlatform::CloudRun(platform);
        }
        RuntimePlatform::Generic
    }

    /// The Cloudflare details, when that platform is active.
    pub fn as_cloudflare(&self) -> (r: Option<&CloudflarePlatform>)
        ensures
            match *self {
                RuntimePlatform::Cloudflare(platform) => r == Some(&platform),
                _ => r is None,
            },
    {
        match self {
            RuntimePlatform::Cloudflare(platform) => Some(platform),
            _ => None,
        }
    }

    /// The Cloud Run details, when that platform is active.
    pub fn as_cloud_run(&self) -> (r: Option<&CloudRunPlatform>)
        ensures
            match *self {
                RuntimePlatform::CloudRun(platform) => r == Some(&platform),
                _ => r is None,
            },
    {
        match self {
            RuntimePlatform::CloudRun(platform) => Some(platform),
            _ => None,
        }
    }

    /// Whether the container runs inside Cloudflare Containers.
    pub fn is_cloudflare(&self) -> (r: bool)
        ensures
            r == (*self is Cloudflare),
    {
        matches!(self, RuntimePlatform::Cloudflare(_))
    }

    /// Whether the container runs inside Google Cloud Run.
    pub fn is_cloud_run(&self) -> (r: bool)
        ensures
            r == (*self is CloudRun),
    {
        matches!(self, RuntimePlatform::CloudRun(_))
    }
}

} // verus!
