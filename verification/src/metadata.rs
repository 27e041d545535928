//! What is known of an inbound request: where it came from, through which
//! platform, and for which service.
//!
//! Under Cloudflare the worker in front of the container may send the whole
//! record in one header. Otherwise the record is put together from the
//! ordinary headers, and filled in from what the platform says of itself.

use crate::address::{is_public_ip, IpAddress};
use crate::environment::{lookup, Environment};
use crate::fields;
use crate::fields::{optional_text_at, text_at, texts_at};
use crate::hints::{hints_in, hints_of, ClientHints, HintsView};
use crate::json;
use crate::json::{json_of, json_parse, Json};
use crate::message::member_or;
use crate::host::{extract_project_from_host, extract_region_from_host, project_in, region_in};
use crate::platform::{
    CloudRunPlatform, CloudRunView, CloudflarePlatform, CloudflareView, PlatformView,
    RuntimePlatform,
};
use crate::request::{
    copy_text, forwarded_entries, forwarded_entries_of, header, header_text, HeadView,
    RequestHead,
};
use crate::text;
use crate::text::{contains_run, first_of, or_else};
use crate::trace::{non_empty, trace_in, trace_of, TraceContext, TraceView};
use vstd::prelude::*;

verus! {

/// The record of a request.
#[derive(Clone, Debug)]
pub struct RequestMetadata {
    pub request_id: Option<String>,
    pub colo: Option<String>,
    pub region: Option<String>,
    pub country: Option<String>,
    pub client_ip: Option<String>,
    pub host: Option<String>,
    pub scheme: Option<String>,
    pub worker_name: Option<String>,
    pub project_id: Option<String>,
    pub cloud_run_service: Option<String>,
    pub cloud_run_revision: Option<String>,
    pub cloud_run_configuration: Option<String>,
    pub cloud_run_region: Option<String>,
    pub trace_context: Option<TraceContext>,
    pub forwarded_for: Vec<String>,
    pub forwarded_proto: Option<String>,
    pub forwarded: Option<String>,
    pub user_agent: Option<String>,
    pub accept: Option<String>,
    pub accept_language: Option<String>,
    pub accept_encoding: Option<String>,
    pub sec_gpc: Option<String>,
    pub client_hints: Option<ClientHints>,
    pub method: String,
    pub path: String,
    pub raw_url: Option<String>,
}

/// The content of a [`RequestMetadata`].
pub struct MetadataView {
    pub request_id: Option<Seq<char>>,
    pub colo: Option<Seq<char>>,
    pub region: Option<Seq<char>>,
    pub country: Option<Seq<char>>,
    pub client_ip: Option<Seq<char>>,
    pub host: Option<Seq<char>>,
    pub scheme: Option<Seq<char>>,
    pub worker_name: Option<Seq<char>>,
    pub project_id: Option<Seq<char>>,
    pub cloud_run_service: Option<Seq<char>>,
    pub cloud_run_revision: Option<Seq<char>>,
    pub cloud_run_configuration: Option<Seq<char>>,
    pub cloud_run_region: Option<Seq<char>>,
    pub trace_context: Option<TraceView>,
    pub forwarded_for: Seq<Seq<char>>,
    pub forwarded_proto: Option<Seq<char>>,
    pub forwarded: Option<Seq<char>>,
    pub user_agent: Option<Seq<char>>,
    pub accept: Option<Seq<char>>,
    pub accept_language: Option<Seq<char>>,
    pub accept_encoding: Option<Seq<char>>,
    pub sec_gpc: Option<Seq<char>>,
    pub client_hints: Option<HintsView>,
    pub method: Seq<char>,
    pub path: Seq<char>,
    pub raw_url: Option<Seq<char>>,
}

/// The content of an optional trace context.
pub open spec fn trace_view(trace: Option<TraceContext>) -> Option<TraceView> {
    match trace {
        Some(t) => Some(t@),
        None => None,
    }
}

/// The content of optional client hints.
pub open spec fn hints_view(hints: Option<ClientHints>) -> Option<HintsView> {
    match hints {
        Some(h) => Some(h@),
        None => None,
    }
}

impl View for RequestMetadata {
    type V = MetadataView;

    open spec fn view(&self) -> MetadataView {
        MetadataView {
            request_id: self.request_id.deep_view(),
            colo: self.colo.deep_view(),
            region: self.region.deep_view(),
            country: self.country.deep_view(),
            client_ip: self.client_ip.deep_view(),
            host: self.host.deep_view(),
            scheme: self.scheme.deep_view(),
            worker_name: self.worker_name.deep_view(),
            project_id: self.project_id.deep_view(),
            cloud_run_service: self.cloud_run_service.deep_view(),
            cloud_run_revision: self.cloud_run_revision.deep_view(),
            cloud_run_configuration: self.cloud_run_configuration.deep_view(),
            cloud_run_region: self.cloud_run_region.deep_view(),
            trace_context: trace_view(self.trace_context),
            forwarded_for: self.forwarded_for.deep_view(),
            forwarded_proto: self.forwarded_proto.deep_view(),
            forwarded: self.forwarded.deep_view(),
            user_agent: self.user_agent.deep_view(),
            accept: self.accept.deep_view(),
            accept_language: self.accept_language.deep_view(),
            accept_encoding: self.accept_encoding.deep_view(),
            sec_gpc: self.sec_gpc.deep_view(),
            client_hints: hints_view(self.client_hints),
            method: self.method@,
            path: self.path@,
            raw_url: self.raw_url.deep_view(),
        }
    }
}

impl MetadataView {
    /// The record of which nothing is known: a `GET` of `/`.
    pub open spec fn blank() -> MetadataView {
        MetadataView {
            request_id: None,
            colo: None,
            region: None,
            country: None,
            client_ip: None,
            host: None,
            scheme: None,
            worker_name: None,
            project_id: None,
            cloud_run_service: None,
            cloud_run_revision: None,
            cloud_run_configuration: None,
            cloud_run_region: None,
            trace_context: None,
            forwarded_for: Seq::empty(),
            forwarded_proto: None,
            forwarded: None,
            user_agent: None,
            accept: None,
            accept_language: None,
            accept_encoding: None,
            sec_gpc: None,
            client_hints: None,
            method: "GET"@,
            path: "/"@,
            raw_url: None,
        }
    }
}

/// Whether the entry at `at` writes an address of the public internet.
pub open spec fn public_at(addresses: Seq<Option<IpAddress>>, at: int) -> bool {
    &&& 0 <= at < addresses.len()
    &&& addresses[at] matches Some(address)
    &&& !address.reserved()
}

/// The first entry, from `from` on, that writes an address of the public
/// internet.
pub open spec fn first_public(
    entries: Seq<Seq<char>>,
    addresses: Seq<Option<IpAddress>>,
    from: int,
) -> Option<Seq<char>>
    decreases entries.len() - from,
{
    if from < 0 || from >= entries.len() {
        None
    } else if public_at(addresses, from) {
        Some(entries[from])
    } else {
        first_public(entries, addresses, from + 1)
    }
}

/// The client that the forwarding chain names: the first entry that is an
/// address of the public internet, or the first entry where none is.
pub open spec fn client_among(entries: Seq<Seq<char>>, addresses: Seq<Option<IpAddress>>) -> Option<
    Seq<char>,
> {
    match first_public(entries, addresses, 0) {
        Some(entry) => Some(entry),
        None => if entries.len() > 0 {
            Some(entries[0])
        } else {
            None
        },
    }
}

/// The client that `x-forwarded-for` names, if the request has that header.
pub open spec fn forwarded_client(head: HeadView) -> Option<Seq<char>> {
    match header_text(head.headers, "x-forwarded-for"@) {
        Some(value) => client_among(forwarded_entries_of(value), head.forwarded_addresses),
        None => None,
    }
}

/// The record that the ordinary headers of a request give.
pub open spec fn metadata_in(head: HeadView) -> MetadataView {
    let headers = head.headers;
    let forwarded_proto = header_text(headers, "x-forwarded-proto"@);
    MetadataView {
        request_id: header_text(headers, "cf-ray"@),
        colo: header_text(headers, "cf-colo"@),
        region: header_text(headers, "cf-region"@),
        country: header_text(headers, "cf-ipcountry"@),
        client_ip: or_else(header_text(headers, "cf-connecting-ip"@), forwarded_client(head)),
        host: match header(headers, "x-forwarded-host"@) {
            Some(value) => value,
            None => header_text(headers, "host"@),
        },
        scheme: or_else(forwarded_proto, head.uri.scheme),
        worker_name: None,
        project_id: None,
        cloud_run_service: None,
        cloud_run_revision: None,
        cloud_run_configuration: None,
        cloud_run_region: None,
        trace_context: None,
        forwarded_for: match header_text(headers, "x-forwarded-for"@) {
            Some(value) => forwarded_entries_of(value),
            None => Seq::empty(),
        },
        forwarded_proto,
        forwarded: header_text(headers, "forwarded"@),
        user_agent: header_text(headers, "user-agent"@),
        accept: header_text(headers, "accept"@),
        accept_language: header_text(headers, "accept-language"@),
        accept_encoding: header_text(headers, "accept-encoding"@),
        sec_gpc: header_text(headers, "sec-gpc"@),
        client_hints: hints_in(headers),
        method: head.method,
        path: match head.uri.path_and_query {
            Some(path_and_query) => path_and_query,
            None => head.uri.path,
        },
        raw_url: non_empty(head.uri.text),
    }
}

/// A record with what Cloudflare knows filled in where the record says
/// nothing.
pub open spec fn with_cloudflare_defaults(
    metadata: MetadataView,
    platform: CloudflareView,
) -> MetadataView {
    MetadataView { worker_name: or_else(metadata.worker_name, platform.worker_name), ..metadata }
}

/// What the host of a record tells, by `tell`, if the record has a host.
pub open spec fn told_by_host(
    host: Option<Seq<char>>,
    tell: spec_fn(Seq<char>) -> Option<Seq<char>>,
) -> Option<Seq<char>> {
    match host {
        Some(h) => tell(h),
        None => None,
    }
}

/// A record with what Cloud Run knows filled in where the record says
/// nothing. What the platform says comes first, then the environment, then
/// the host name. The region and the worker's name default to those of the
/// service. A trace header replaces the trace context and, where the record
/// has no request identifier, gives its trace identifier for one.
pub open spec fn with_cloud_run_defaults(
    metadata: MetadataView,
    head: HeadView,
    platform: CloudRunView,
    env: Seq<(Seq<char>, Seq<char>)>,
) -> MetadataView {
    let cloud_run_service = or_else(metadata.cloud_run_service, platform.service);
    let cloud_run_region = or_else(
        or_else(metadata.cloud_run_region, platform.region),
        told_by_host(metadata.host, |h: Seq<char>| region_in(h)),
    );
    let project_id = or_else(
        or_else(metadata.project_id, platform.project_id),
        or_else(
            lookup(env, "GOOGLE_CLOUD_PROJECT"@),
            or_else(
                lookup(env, "GCLOUD_PROJECT"@),
                told_by_host(metadata.host, |h: Seq<char>| project_in(h)),
            ),
        ),
    );
    let filled = MetadataView {
        cloud_run_service,
        cloud_run_revision: or_else(metadata.cloud_run_revision, platform.revision),
        cloud_run_configuration: or_else(metadata.cloud_run_configuration, platform.configuration),
        project_id,
        cloud_run_region,
        region: or_else(metadata.region, cloud_run_region),
        worker_name: or_else(metadata.worker_name, cloud_run_service),
        ..metadata
    };
    match header_text(head.headers, "x-cloud-trace-context"@) {
        Some(value) => {
            let trace = trace_in(value, platform.project_id);
            MetadataView {
                request_id: or_else(filled.request_id, trace.trace_id),
                trace_context: Some(trace),
                ..filled
            }
        },
        None => filled,
    }
}

/// Whether the URL of a record is to be put together again: it is missing,
/// or it is only a path, or it has no scheme.
pub open spec fn needs_rebuild(raw_url: Option<Seq<char>>) -> bool {
    match raw_url {
        Some(url) => (url.len() > 0 && url.first() == '/') || !contains_run(url, "://"@),
        None => true,
    }
}

/// A record whose URL is put together from scheme, host and path where
/// that is needed and both scheme and host are known.
pub open spec fn with_rebuilt_url(metadata: MetadataView) -> MetadataView {
    if needs_rebuild(metadata.raw_url) && metadata.host is Some && metadata.scheme is Some {
        MetadataView {
            raw_url: Some(
                metadata.scheme->0 + "://"@ + metadata.host->0 + metadata.path,
            ),
            ..metadata
        }
    } else {
        metadata
    }
}

/// The record that the headers of a request give on a platform.
pub open spec fn metadata_on(
    head: HeadView,
    platform: PlatformView,
    env: Seq<(Seq<char>, Seq<char>)>,
) -> MetadataView {
    match platform {
        PlatformView::Cloudflare(cloudflare) => with_cloudflare_defaults(
            metadata_in(head),
            cloudflare,
        ),
        PlatformView::CloudRun(cloud_run) => with_cloud_run_defaults(
            metadata_in(head),
            head,
            cloud_run,
            env,
        ),
        PlatformView::Generic => metadata_in(head),
    }
}

/// An optional trace context: missing or `null` for none, else the member,
/// which must stand for one.
pub open spec fn trace_at(members: Map<Seq<char>, Json>, key: Seq<char>) -> Option<
    Option<TraceView>,
> {
    match member_or(members, key, Json::Null) {
        Json::Null => Some(None),
        other => match trace_of(other) {
            Some(trace) => Some(Some(trace)),
            None => None,
        },
    }
}

/// Optional client hints: missing or `null` for none, else the member,
/// which must stand for some.
pub open spec fn hints_at(members: Map<Seq<char>, Json>, key: Seq<char>) -> Option<
    Option<HintsView>,
> {
    match member_or(members, key, Json::Null) {
        Json::Null => Some(None),
        other => match hints_of(other) {
            Some(hints) => Some(Some(hints)),
            None => None,
        },
    }
}

/// The record that a JSON document stands for, if it stands for one: an
/// object in which each member that is there has the type of its field.
/// Fields without a member are as in the blank record.
pub open spec fn metadata_of(doc: Json) -> Option<MetadataView> {
    match doc {
        Json::Object(members) => {
            let request_id = optional_text_at(members, "request_id"@);
            let colo = optional_text_at(members, "colo"@);
            let region = optional_text_at(members, "region"@);
            let country = optional_text_at(members, "country"@);
            let client_ip = optional_text_at(members, "client_ip"@);
            let host = optional_text_at(members, "host"@);
            let scheme = optional_text_at(members, "scheme"@);
            let worker_name = optional_text_at(members, "worker_name"@);
            let project_id = optional_text_at(members, "project_id"@);
            let cloud_run_service = optional_text_at(members, "cloud_run_service"@);
            let cloud_run_revision = optional_text_at(members, "cloud_run_revision"@);
            let cloud_run_configuration = optional_text_at(members, "cloud_run_configuration"@);
            let cloud_run_region = optional_text_at(members, "cloud_run_region"@);
            let trace_context = trace_at(members, "trace_context"@);
            let forwarded_for = texts_at(members, "forwarded_for"@);
            let forwarded_proto = optional_text_at(members, "forwarded_proto"@);
            let forwarded = optional_text_at(members, "forwarded"@);
            let user_agent = optional_text_at(members, "user_agent"@);
            let accept = optional_text_at(members, "accept"@);
            let accept_language = optional_text_at(members, "accept_language"@);
            let accept_encoding = optional_text_at(members, "accept_encoding"@);
            let sec_gpc = optional_text_at(members, "sec_gpc"@);
            let client_hints = hints_at(members, "client_hints"@);
            let method = text_at(members, "method"@, "GET"@);
            let path = text_at(members, "path"@, "/"@);
            let raw_url = optional_text_at(members, "raw_url"@);
            if request_id is Some
                && colo is Some
                && region is Some
                && country is Some
                && client_ip is Some
                && host is Some
                && scheme is Some
                && worker_name is Some
                && project_id is Some
                && cloud_run_service is Some
                && cloud_run_revision is Some
                && cloud_run_configuration is Some
                && cloud_run_region is Some
                && trace_context is Some
                && forwarded_for is Some
                && forwarded_proto is Some
                && forwarded is Some
                && user_agent is Some
                && accept is Some
                && accept_language is Some
                && accept_encoding is Some
                && sec_gpc is Some
                && client_hints is Some
                && method is Some
                && path is Some
                && raw_url is Some {
                Some(
                    MetadataView {
                        request_id: request_id->0,
                        colo: colo->0,
                        region: region->0,
                        country: country->0,
                        client_ip: client_ip->0,
                        host: host->0,
                        scheme: scheme->0,
                        worker_name: worker_name->0,
                        project_id: project_id->0,
                        cloud_run_service: cloud_run_service->0,
                        cloud_run_revision: cloud_run_revision->0,
                        cloud_run_configuration: cloud_run_configuration->0,
                        cloud_run_region: cloud_run_region->0,
                        trace_context: trace_context->0,
                        forwarded_for: forwarded_for->0,
                        forwarded_proto: forwarded_proto->0,
                        forwarded: forwarded->0,
                        user_agent: user_agent->0,
                        accept: accept->0,
                        accept_language: accept_language->0,
                        accept_encoding: accept_encoding->0,
                        sec_gpc: sec_gpc->0,
                        client_hints: client_hints->0,
                        method: method->0,
                        path: path->0,
                        raw_url: raw_url->0,
                    },
                )
            } else {
                None
            }
        },
        _ => None,
    }
}

/// The record that the worker in front of the container sent along, if it
/// sent one that can be read.
pub open spec fn metadata_sent(head: HeadView) -> Option<MetadataView> {
    match header_text(head.headers, "x-containerflare-metadata"@) {
        Some(text) => match json_parse(text) {
            Some(doc) => metadata_of(doc),
            None => None,
        },
        None => None,
    }
}

/// The record of a request: the one that was sent along, if one was, and
/// else the one that the headers give on the platform.
pub open spec fn metadata_for(
    head: HeadView,
    platform: PlatformView,
    env: Seq<(Seq<char>, Seq<char>)>,
) -> MetadataView {
    match metadata_sent(head) {
        Some(metadata) => metadata,
        None => metadata_on(head, platform, env),
    }
}

/// Reads an optional trace context member of an object.
fn optional_trace(doc: &serde_json::Value, key: &str) -> (r: Option<Option<TraceContext>>)
    requires
        json_of(*doc) is Object,
    ensures
        match r {
            Some(trace) => trace_at(json_of(*doc)->Object_0, key@) == Some(trace_view(trace)),
            None => trace_at(json_of(*doc)->Object_0, key@) is None,
        },
{
    match json::member(doc, key) {
        Some(found) => {
            if json::is_null(found) {
                Some(None)
            } else {
                match TraceContext::from_json(found) {
                    Some(trace) => Some(Some(trace)),
                    None => None,
                }
            }
        },
        None => Some(None),
    }
}

/// Reads an optional client hints member of an object.
fn optional_hints(doc: &serde_json::Value, key: &str) -> (r: Option<Option<ClientHints>>)
    requires
        json_of(*doc) is Object,
    ensures
        match r {
            Some(hints) => hints_at(json_of(*doc)->Object_0, key@) == Some(hints_view(hints)),
            None => hints_at(json_of(*doc)->Object_0, key@) is None,
        },
{
    match json::member(doc, key) {
        Some(found) => {
            if json::is_null(found) {
                Some(None)
            } else {
                match ClientHints::from_json(found) {
                    Some(hints) => Some(Some(hints)),
                    None => None,
                }
            }
        },
        None => Some(None),
    }
}

/// The client that a forwarding chain names.
pub fn pick_client_ip(entries: &Vec<String>, addresses: &Vec<Option<IpAddress>>) -> (r: Option<
    String,
>)
    ensures
        r.deep_view() == client_among(entries.deep_view(), addresses@),
{
    let n: usize = entries.len();
    let mut i: usize = 0;
    while i < n
        invariant
            i <= n,
            n == entries@.len(),
            first_public(entries.deep_view(), addresses@, 0) == first_public(
                entries.deep_view(),
                addresses@,
                i as int,
            ),
        decreases n - i,
    {
        if i < addresses.len() {
            if let Some(address) = addresses[i] {
                if is_public_ip(&address) {
                    return Some(entries[i].clone());
                }
            }
        }
        i += 1;
    }
    if n > 0 {
        Some(entries[0].clone())
    } else {
        None
    }
}

/// The client that `x-forwarded-for` names.
pub fn pick_client_ip_from_xff(head: &RequestHead) -> (r: Option<String>)
    ensures
        r.deep_view() == forwarded_client(head@),
{
    match head.header_text("x-forwarded-for") {
        Some(value) => pick_client_ip(
            &forwarded_entries(value.as_str()),
            &head.forwarded_addresses,
        ),
        None => None,
    }
}

impl Default for RequestMetadata {
    fn default() -> (r: Self)
        ensures
            r@ == MetadataView::blank(),
    {
        let r = RequestMetadata {
            request_id: None,
            colo: None,
            region: None,
            country: None,
            client_ip: None,
            host: None,
            scheme: None,
            worker_name: None,
            project_id: None,
            cloud_run_service: None,
            cloud_run_revision: None,
            cloud_run_configuration: None,
            cloud_run_region: None,
            trace_context: None,
            forwarded_for: Vec::new(),
            forwarded_proto: None,
            forwarded: None,
            user_agent: None,
            accept: None,
            accept_language: None,
            accept_encoding: None,
            sec_gpc: None,
            client_hints: None,
            method: String::from_str("GET"),
            path: String::from_str("/"),
            raw_url: None,
        };
        assert(r.forwarded_for.deep_view() =~= Seq::<Seq<char>>::empty());
        r
    }
}

impl RequestMetadata {
    /// Reads a record from a JSON value.
    pub fn from_json(doc: &serde_json::Value) -> (r: Option<Self>)
        ensures
            match r {
                Some(metadata) => metadata_of(json_of(*doc)) == Some(metadata@),
                None => metadata_of(json_of(*doc)) is None,
            },
    {
        if !json::is_object(doc) {
            return None;
        }
        let request_id = match fields::optional_text(doc, "request_id") {
            Some(value) => value,
            None => {
                return None;
            },
        };
        let colo = match fields::optional_text(doc, "colo") {
            Some(value) => value,
            None => {
                return None;
            },
        };
        let region = match fields::optional_text(doc, "region") {
            Some(value) => value,
            None => {
                return None;
            },
        };
        let country = match fields::optional_text(doc, "country") {
            Some(value) => value,
            None => {
                return None;
            },
        };
        let client_ip = match fields::optional_text(doc, "client_ip") {
            Some(value) => value,
            None => {
                return None;
            },
        };
        let host = match fields::optional_text(doc, "host") {
            Some(value) => value,
            None => {
                return None;
            },
        };
        let scheme = match fields::optional_text(doc, "scheme") {
            Some(value) => value,
            None => {
                return None;
            },
        };
        let worker_name = match fields::optional_text(doc, "worker_name") {
            Some(value) => value,
            None => {
                return None;
            },
        };
        let project_id = match fields::optional_text(doc, "project_id") {
            Some(value) => value,
            None => {
                return None;
            },
        };
        let cloud_run_service = match fields::optional_text(doc, "cloud_run_service") {
            Some(value) => value,
            None => {
                return None;
            },
        };
        let cloud_run_revision = match fields::optional_text(doc, "cloud_run_revision") {
            Some(value) => value,
            None => {
                return None;
            },
        };
        let cloud_run_configuration = match fields::optional_text(doc, "cloud_run_configuration") {
            Some(value) => value,
            None => {
                return None;
            },
        };
        let cloud_run_region = match fields::optional_text(doc, "cloud_run_region") {
            Some(value) => value,
            None => {
                return None;
            },
        };
        let trace_context = match optional_trace(doc, "trace_context") {
            Some(value) => value,
            None => {
                return None;
            },
        };
        let forwarded_for = match fields::texts(doc, "forwarded_for") {
            Some(value) => value,
            None => {
                return None;
            },
        };
        let forwarded_proto = match fields::optional_text(doc, "forwarded_proto") {
            Some(value) => value,
            None => {
                return None;
            },
        };
        let forwarded = match fields::optional_text(doc, "forwarded") {
            Some(value) => value,
            None => {
                return None;
            },
        };
        let user_agent = match fields::optional_text(doc, "user_agent") {
            Some(value) => value,
            None => {
                return None;
            },
        };
        let accept = match fields::optional_text(doc, "accept") {
            Some(value) => value,
            None => {
                return None;
            },
        };
        let accept_language = match fields::optional_text(doc, "accept_language") {
            Some(value) => value,
            None => {
                return None;
            },
        };
        let accept_encoding = match fields::optional_text(doc, "accept_encoding") {
            Some(value) => value,
            None => {
                return None;
            },
        };
        let sec_gpc = match fields::optional_text(doc, "sec_gpc") {
            Some(value) => value,
            None => {
                return None;
            },
        };
        let client_hints = match optional_hints(doc, "client_hints") {
            Some(value) => value,
            None => {
                return None;
            },
        };
        let method = match fields::text_or(doc, "method", "GET") {
            Some(value) => value,
            None => {
                return None;
            },
        };
        let path = match fields::text_or(doc, "path", "/") {
            Some(value) => value,
            None => {
                return None;
            },
        };
        let raw_url = match fields::optional_text(doc, "raw_url") {
            Some(value) => value,
            None => {
                return None;
            },
        };
        Some(
            RequestMetadata {
                request_id,
                colo,
                region,
                country,
                client_ip,
                host,
                scheme,
                worker_name,
                project_id,
                cloud_run_service,
                cloud_run_revision,
                cloud_run_configuration,
                cloud_run_region,
                trace_context,
                forwarded_for,
                forwarded_proto,
                forwarded,
                user_agent,
                accept,
                accept_language,
                accept_encoding,
                sec_gpc,
                client_hints,
                method,
                path,
                raw_url,
            },
        )
    }

    /// Reads the record that the worker in front of the container sent
    /// along in the `x-containerflare-metadata` header.
    pub fn from_metadata_header(head: &RequestHead) -> (r: Option<Self>)
        ensures
            match r {
                Some(metadata) => metadata_sent(head@) == Some(metadata@),
                None => metadata_sent(head@) is None,
            },
    {
        let raw = match head.header_text("x-containerflare-metadata") {
            Some(raw) => raw,
            None => {
                return None;
            },
        };
        match json::parse(raw.as_str()) {
            Ok(doc) => RequestMetadata::from_json(&doc),
            Err(_) => None,
        }
    }

    /// The record of a request: the one that was sent along, if one was,
    /// and else the one that the headers give, filled in from the platform.
    pub fn from_parts(head: &RequestHead, platform: &RuntimePlatform, env: &Environment) -> (r:
        Self)
        ensures
            r@ == metadata_for(head@, platform@, env@),
    {
        if let Some(metadata) = RequestMetadata::from_metadata_header(head) {
            return metadata;
        }
        RequestMetadata::from_platform(head, platform, env)
    }

    /// Puts the record together from the ordinary headers of a request.
    pub fn from_headers(head: &RequestHead) -> (r: Self)
        ensures
            r@ == metadata_in(head@),
    {
        let request_id = head.header_text("cf-ray");
        let colo = head.header_text("cf-colo");
        let country = head.header_text("cf-ipcountry");
        let region = head.header_text("cf-region");
        let client_ip = first_of(
            head.header_text("cf-connecting-ip"),
            pick_client_ip_from_xff(head),
        );
        let host = match head.header("x-forwarded-host") {
            Some(value) => value,
            None => head.header_text("host"),
        };
        let method = head.method.clone();
        let path = match &head.uri.path_and_query {
            Some(path_and_query) => path_and_query.clone(),
            None => head.uri.path.clone(),
        };
        let raw_url = crate::trace::keep_non_empty(head.uri.text.as_str());
        let forwarded_proto = head.header_text("x-forwarded-proto");
        let scheme = first_of(copy_text(&forwarded_proto), copy_text(&head.uri.scheme));
        let forwarded = head.header_text("forwarded");
        let forwarded_for = match head.header_text("x-forwarded-for") {
            Some(value) => forwarded_entries(value.as_str()),
            None => {
                let none: Vec<String> = Vec::new();
                assert(none.deep_view() =~= Seq::<Seq<char>>::empty());
                none
            },
        };
        let user_agent = head.header_text("user-agent");
        let accept = head.header_text("accept");
        let accept_language = head.header_text("accept-language");
        let accept_encoding = head.header_text("accept-encoding");
        let sec_gpc = head.header_text("sec-gpc");
        let client_hints = ClientHints::from_headers(head);
        RequestMetadata {
            request_id,
            colo,
            region,
            country,
            client_ip,
            host,
            scheme,
            worker_name: None,
            project_id: None,
            cloud_run_service: None,
            cloud_run_revision: None,
            cloud_run_configuration: None,
            cloud_run_region: None,
            trace_context: None,
            forwarded_for,
            forwarded_proto,
            forwarded,
            user_agent,
            accept,
            accept_language,
            accept_encoding,
            sec_gpc,
            client_hints,
            method,
            path,
            raw_url,
        }
    }

    /// Fills in what Cloudflare knows where the record says nothing.
    pub fn apply_cloudflare_defaults(&mut self, platform: &CloudflarePlatform)
        ensures
            final(self)@ == with_cloudflare_defaults(old(self)@, platform@),
    {
        if self.worker_name.is_none() {
            self.worker_name = copy_text(&platform.worker_name);
        }
    }

    /// Fills in what Cloud Run knows where the record says nothing.
    pub fn apply_cloud_run_defaults(
        &mut self,
        head: &RequestHead,
        platform: &CloudRunPlatform,
        env: &Environment,
    )
        ensures
            final(self)@ == with_cloud_run_defaults(old(self)@, head@, platform@, env@),
    {
        if self.cloud_run_service.is_none() {
            self.cloud_run_service = copy_text(&platform.service);
        }
        if self.cloud_run_revision.is_none() {
            self.cloud_run_revision = copy_text(&platform.revision);
        }
        if self.cloud_run_configuration.is_none() {
            self.cloud_run_configuration = copy_text(&platform.configuration);
        }
        if self.project_id.is_none() {
            self.project_id = copy_text(&platform.project_id);
        }
        if self.cloud_run_region.is_none() {
            self.cloud_run_region = copy_text(&platform.region);
        }
        if self.cloud_run_region.is_none() {
            self.cloud_run_region = match &self.host {
                Some(host) => extract_region_from_host(host.as_str()),
                None => None,
            };
        }
        if self.project_id.is_none() {
            let from_host = match &self.host {
                Some(host) => extract_project_from_host(host.as_str()),
                None => None,
            };
            self.project_id = first_of(
                env.var("GOOGLE_CLOUD_PROJECT"),
                first_of(env.var("GCLOUD_PROJECT"), from_host),
            );
        }
        if self.region.is_none() {
            self.region = copy_text(&self.cloud_run_region);
        }
        if self.worker_name.is_none() {
            self.worker_name = copy_text(&self.cloud_run_service);
        }
        if let Some(value) = head.header_text("x-cloud-trace-context") {
            let project_id = match &platform.project_id {
                Some(id) => Some(id.as_str()),
                None => None,
            };
            let trace = TraceContext::from_cloud_trace_header(value.as_str(), project_id);
            if self.request_id.is_none() {
                self.request_id = copy_text(&trace.trace_id);
            }
            self.trace_context = Some(trace);
        }
    }

    /// Puts the URL together from scheme, host and path where the record
    /// has only a path for one.
    pub fn rebuild_raw_url_if_needed(&mut self)
        ensures
            final(self)@ == with_rebuilt_url(old(self)@),
    {
        let needs_rebuild = match &self.raw_url {
            Some(url) => text::starts_with_char(url.as_str(), '/') || !text::contains(
                url.as_str(),
                "://",
            ),
            None => true,
        };
        if needs_rebuild {
            if let (Some(host), Some(scheme)) = (&self.host, &self.scheme) {
                let url = scheme.clone().concat("://").concat(host.as_str()).concat(
                    self.path.as_str(),
                );
                self.raw_url = Some(url);
            }
        }
    }

    /// Puts the record together from the headers of a request and fills in
    /// what the platform knows.
    pub fn from_platform(head: &RequestHead, platform: &RuntimePlatform, env: &Environment) -> (r:
        Self)
        ensures
            r@ == metadata_on(head@, platform@, env@),
    {
        let mut metadata = RequestMetadata::from_headers(head);
        if let Some(cloudflare) = platform.as_cloudflare() {
            metadata.apply_cloudflare_defaults(cloudflare);
        }
        if let Some(cloud_run) = platform.as_cloud_run() {
            metadata.apply_cloud_run_defaults(head, cloud_run, env);
        }
        metadata
    }
}

/// `filled` says what `known` says wherever `known` says anything.
pub open spec fn keeps(known: Option<Seq<char>>, filled: Option<Seq<char>>) -> bool {
    known is Some ==> filled == known
}

/// Filling in from the platform never changes what a record says already,
/// and touches nothing but the fields that a platform can speak of. Only
/// the trace context is replaced, by that of the request at hand.
pub proof fn platform_defaults_keep_what_is_known(
    metadata: MetadataView,
    head: HeadView,
    cloudflare: CloudflareView,
    cloud_run: CloudRunView,
    env: Seq<(Seq<char>, Seq<char>)>,
)
    ensures
        ({
            let filled = with_cloudflare_defaults(metadata, cloudflare);
            &&& keeps(metadata.worker_name, filled.worker_name)
            &&& filled == (MetadataView { worker_name: filled.worker_name, ..metadata })
        }),
        ({
            let filled = with_cloud_run_defaults(metadata, head, cloud_run, env);
            &&& keeps(metadata.request_id, filled.request_id)
            &&& keeps(metadata.region, filled.region)
            &&& keeps(metadata.worker_name, filled.worker_name)
            &&& keeps(metadata.project_id, filled.project_id)
            &&& keeps(metadata.cloud_run_service, filled.cloud_run_service)
            &&& keeps(metadata.cloud_run_revision, filled.cloud_run_revision)
            &&& keeps(metadata.cloud_run_configuration, filled.cloud_run_configuration)
            &&& keeps(metadata.cloud_run_region, filled.cloud_run_region)
            &&& filled == (MetadataView {
                request_id: filled.request_id,
                region: filled.region,
                worker_name: filled.worker_name,
                project_id: filled.project_id,
                cloud_run_service: filled.cloud_run_service,
                cloud_run_revision: filled.cloud_run_revision,
                cloud_run_configuration: filled.cloud_run_configuration,
                cloud_run_region: filled.cloud_run_region,
                trace_context: filled.trace_context,
                ..metadata
            })
        }),
{
}

} // verus!
