use axum::http::request::Parts;
use axum::http::Request;
use containerflare::address::IpAddress;
use containerflare::client::CommandClient;
use containerflare::context::{ContainerContext, ContainerContextRejection, REJECTION_STATUS};
use containerflare::environment::Environment;
use containerflare::hints::ClientHints;
use containerflare::metadata::{pick_client_ip, RequestMetadata};
use containerflare::platform::{CloudRunPlatform, CloudflarePlatform, RuntimePlatform};
use containerflare::request::{RequestHead, RequestUri};
use containerflare::trace::TraceContext;
use serde_json::Value;

const METADATA_HEADER: &str = "x-containerflare-metadata";

/// The head of a request as the serving layer hands it over.
fn head_of(parts: &Parts, forwarded_addresses: Vec<Option<IpAddress>>) -> RequestHead {
    RequestHead {
        method: parts.method.to_string(),
        uri: RequestUri {
            text: parts.uri.to_string(),
            path: parts.uri.path().to_owned(),
            path_and_query: parts.uri.path_and_query().map(|pq| pq.as_str().to_owned()),
            scheme: parts.uri.scheme_str().map(|scheme| scheme.to_owned()),
        },
        headers: parts
            .headers
            .iter()
            .map(|(name, value)| {
                (name.as_str().to_owned(), value.to_str().ok().map(|text| text.to_owned()))
            })
            .collect(),
        forwarded_addresses,
    }
}

fn text_or_null(text: &Option<String>) -> Value {
    match text {
        Some(text) => Value::String(text.clone()),
        None => Value::Null,
    }
}

/// The JSON object that carries a record, with a member for every field.
fn metadata_json(metadata: &RequestMetadata) -> String {
    let mut map = serde_json::Map::new();
    let texts = [
        ("request_id", &metadata.request_id),
        ("colo", &metadata.colo),
        ("region", &metadata.region),
        ("country", &metadata.country),
        ("client_ip", &metadata.client_ip),
        ("host", &metadata.host),
        ("scheme", &metadata.scheme),
        ("worker_name", &metadata.worker_name),
        ("project_id", &metadata.project_id),
        ("cloud_run_service", &metadata.cloud_run_service),
        ("cloud_run_revision", &metadata.cloud_run_revision),
        ("cloud_run_configuration", &metadata.cloud_run_configuration),
        ("cloud_run_region", &metadata.cloud_run_region),
        ("forwarded_proto", &metadata.forwarded_proto),
        ("forwarded", &metadata.forwarded),
        ("user_agent", &metadata.user_agent),
        ("accept", &metadata.accept),
        ("accept_language", &metadata.accept_language),
        ("accept_encoding", &metadata.accept_encoding),
        ("sec_gpc", &metadata.sec_gpc),
        ("raw_url", &metadata.raw_url),
    ];
    for (name, value) in texts {
        map.insert(name.to_string(), text_or_null(value));
    }
    map.insert("trace_context".to_string(), Value::Null);
    map.insert("client_hints".to_string(), Value::Null);
    map.insert(
        "forwarded_for".to_string(),
        Value::Array(metadata.forwarded_for.iter().cloned().map(Value::String).collect()),
    );
    map.insert("method".to_string(), Value::String(metadata.method.clone()));
    map.insert("path".to_string(), Value::String(metadata.path.clone()));
    serde_json::to_string(&Value::Object(map)).unwrap()
}

#[test]
fn metadata_defaults_to_headers() {
    let request = Request::builder()
        .method("GET")
        .uri("https://example.com/foo?bar=baz")
        .header("cf-ray", "ray123")
        .header("cf-colo", "iad")
        .header("cf-ipcountry", "US")
        .header("cf-region", "na")
        .header("cf-connecting-ip", "203.0.113.1")
        .body(())
        .unwrap();

    let (parts, _) = request.into_parts();
    let metadata = RequestMetadata::from_parts(
        &head_of(&parts, vec![]),
        &RuntimePlatform::default(),
        &Environment::empty(),
    );

    assert_eq!(metadata.request_id.as_deref(), Some("ray123"));
    assert_eq!(metadata.colo.as_deref(), Some("iad"));
    assert_eq!(metadata.country.as_deref(), Some("US"));
    assert_eq!(metadata.region.as_deref(), Some("na"));
    assert_eq!(metadata.client_ip.as_deref(), Some("203.0.113.1"));
    assert_eq!(metadata.path, "/foo?bar=baz");
}

#[test]
fn metadata_header_overrides_values() {
    let mut metadata = RequestMetadata::default();
    metadata.request_id = Some("abc".into());
    metadata.colo = Some("sfo".into());
    metadata.region = Some("us-west".into());
    metadata.country = Some("US".into());
    metadata.client_ip = Some("203.0.113.9".into());
    metadata.host = Some("example.com".into());
    metadata.scheme = Some("https".into());
    metadata.worker_name = Some("test-worker".into());
    metadata.method = "POST".into();
    metadata.path = "/foo?bar=baz".into();
    metadata.raw_url = Some("https://example.com/foo?bar=baz".into());

    let metadata_header = metadata_json(&metadata);
    let request = Request::builder()
        .method("POST")
        .uri("https://placeholder.invalid/")
        .header(METADATA_HEADER, metadata_header)
        .body(())
        .unwrap();

    let (parts, _) = request.into_parts();
    let parsed = RequestMetadata::from_parts(
        &head_of(&parts, vec![]),
        &RuntimePlatform::default(),
        &Environment::empty(),
    );

    assert_eq!(parsed.request_id, metadata.request_id);
    assert_eq!(parsed.colo, metadata.colo);
    assert_eq!(parsed.worker_name, metadata.worker_name);
    assert_eq!(parsed.path, metadata.path);
    assert_eq!(parsed.raw_url, metadata.raw_url);
}

#[test]
fn cloud_run_metadata_from_headers() {
    let platform = RuntimePlatform::CloudRun(CloudRunPlatform {
        service: Some("svc".into()),
        revision: Some("rev".into()),
        configuration: Some("cfg".into()),
        project_id: Some("proj-123".into()),
        region: Some("us-central1".into()),
    });

    let request = Request::builder()
        .method("GET")
        .uri("http://127.0.0.1/hello")
        .header("x-forwarded-for", "198.51.100.1")
        .header("x-forwarded-host", "example.run.app")
        .header("x-forwarded-proto", "https")
        .header(
            "x-cloud-trace-context",
            "105445aa7843bc8bf206b120001000/123;o=1",
        )
        .header("user-agent", "test-agent")
        .header("accept-language", "en-US")
        .header("sec-ch-ua", "\"Chromium\";v=\"1\"")
        .body(())
        .unwrap();

    let (parts, _) = request.into_parts();
    let head = head_of(&parts, vec![Some(IpAddress::V4(198, 51, 100, 1))]);
    let metadata = RequestMetadata::from_parts(&head, &platform, &Environment::empty());

    assert_eq!(metadata.cloud_run_service.as_deref(), Some("svc"));
    assert_eq!(metadata.cloud_run_revision.as_deref(), Some("rev"));
    assert_eq!(metadata.cloud_run_configuration.as_deref(), Some("cfg"));
    assert_eq!(metadata.project_id.as_deref(), Some("proj-123"));
    assert_eq!(metadata.cloud_run_region.as_deref(), Some("us-central1"));
    assert_eq!(metadata.region.as_deref(), Some("us-central1"));
    assert_eq!(metadata.scheme.as_deref(), Some("https"));
    assert_eq!(metadata.host.as_deref(), Some("example.run.app"));
    assert_eq!(metadata.client_ip.as_deref(), Some("198.51.100.1"));
    assert_eq!(metadata.worker_name.as_deref(), Some("svc"));
    assert_eq!(metadata.user_agent.as_deref(), Some("test-agent"));
    assert_eq!(metadata.accept_language.as_deref(), Some("en-US"));
    assert!(metadata.client_hints.is_some());
    assert_eq!(
        metadata.request_id.as_deref(),
        Some("105445aa7843bc8bf206b120001000")
    );
    assert!(metadata.trace_context.is_some());
    assert_eq!(
        metadata.trace_context.as_ref().unwrap().span_id.as_deref(),
        Some("123")
    );
}

#[test]
fn blank_record_is_a_get_of_the_root() {
    let metadata = RequestMetadata::default();
    assert_eq!(metadata.method, "GET");
    assert_eq!(metadata.path, "/");
    assert!(metadata.forwarded_for.is_empty());
    assert!(metadata.request_id.is_none() && metadata.raw_url.is_none());
    assert!(metadata.trace_context.is_none() && metadata.client_hints.is_none());
}

#[test]
fn headers_give_the_forwarding_chain() {
    let request = Request::builder()
        .method("PUT")
        .uri("/upload?x=1")
        .header("host", "internal.example")
        .header("x-forwarded-for", "10.0.0.1, 8.8.8.8 , ,1.1.1.1")
        .header("forwarded", "for=8.8.8.8")
        .header("accept", "*/*")
        .header("accept-encoding", "gzip")
        .header("sec-gpc", "1")
        .body(())
        .unwrap();
    let (parts, _) = request.into_parts();
    let addresses = vec![
        Some(IpAddress::V4(10, 0, 0, 1)),
        Some(IpAddress::V4(8, 8, 8, 8)),
        Some(IpAddress::V4(1, 1, 1, 1)),
    ];
    let metadata = RequestMetadata::from_headers(&head_of(&parts, addresses));
    assert_eq!(metadata.method, "PUT");
    assert_eq!(metadata.path, "/upload?x=1");
    assert_eq!(metadata.raw_url.as_deref(), Some("/upload?x=1"));
    assert_eq!(metadata.host.as_deref(), Some("internal.example"));
    assert_eq!(metadata.scheme, None);
    assert_eq!(metadata.forwarded_for, vec!["10.0.0.1", "8.8.8.8", "1.1.1.1"]);
    assert_eq!(metadata.client_ip.as_deref(), Some("8.8.8.8"));
    assert_eq!(metadata.forwarded.as_deref(), Some("for=8.8.8.8"));
    assert_eq!(metadata.accept.as_deref(), Some("*/*"));
    assert_eq!(metadata.accept_encoding.as_deref(), Some("gzip"));
    assert_eq!(metadata.sec_gpc.as_deref(), Some("1"));
    assert_eq!(metadata.worker_name, None);
    assert!(metadata.client_hints.is_none());
}

#[test]
fn client_is_the_first_public_hop_or_the_first_hop() {
    let entries = vec!["10.0.0.1".to_string(), "unknown".to_string(), "9.9.9.9".to_string()];
    let addresses =
        vec![Some(IpAddress::V4(10, 0, 0, 1)), None, Some(IpAddress::V4(9, 9, 9, 9))];
    assert_eq!(pick_client_ip(&entries, &addresses).as_deref(), Some("9.9.9.9"));
    let private = vec![Some(IpAddress::V4(10, 0, 0, 1)), None, Some(IpAddress::V4(127, 0, 0, 1))];
    assert_eq!(pick_client_ip(&entries, &private).as_deref(), Some("10.0.0.1"));
    assert_eq!(pick_client_ip(&entries, &vec![]).as_deref(), Some("10.0.0.1"));
    assert_eq!(pick_client_ip(&vec![], &addresses), None);
    let v6 = vec![Some(IpAddress::V6(0xfe80, 0, 0, 0, 0, 0, 0, 1)), None, None];
    assert_eq!(pick_client_ip(&entries, &v6).as_deref(), Some("10.0.0.1"));
}

#[test]
fn connecting_ip_wins_over_the_forwarding_chain() {
    let request = Request::builder()
        .uri("/")
        .header("cf-connecting-ip", "203.0.113.1")
        .header("x-forwarded-for", "8.8.8.8")
        .body(())
        .unwrap();
    let (parts, _) = request.into_parts();
    let head = head_of(&parts, vec![Some(IpAddress::V4(8, 8, 8, 8))]);
    let metadata = RequestMetadata::from_headers(&head);
    assert_eq!(metadata.client_ip.as_deref(), Some("203.0.113.1"));
}

#[test]
fn header_values_that_are_not_text_count_as_missing() {
    let head = RequestHead {
        method: "GET".to_string(),
        uri: RequestUri {
            text: "/".to_string(),
            path: "/".to_string(),
            path_and_query: Some("/".to_string()),
            scheme: None,
        },
        headers: vec![
            ("x-forwarded-host".to_string(), None),
            ("host".to_string(), Some("fallback.example".to_string())),
            ("cf-ray".to_string(), None),
            ("cf-ray".to_string(), Some("second".to_string())),
        ],
        forwarded_addresses: vec![],
    };
    assert_eq!(head.header("cf-ray"), Some(None));
    assert_eq!(head.header("host"), Some(Some("fallback.example".to_string())));
    assert_eq!(head.header("missing"), None);
    assert_eq!(head.header_text("cf-ray"), None);
    let metadata = RequestMetadata::from_headers(&head);
    assert_eq!(metadata.host, None);
    assert_eq!(metadata.request_id, None);
}

#[test]
fn cloudflare_defaults_fill_the_worker_name() {
    let platform = CloudflarePlatform { worker_name: Some("edge".to_string()) };
    let mut metadata = RequestMetadata::default();
    metadata.apply_cloudflare_defaults(&platform);
    assert_eq!(metadata.worker_name.as_deref(), Some("edge"));
    metadata.worker_name = Some("kept".to_string());
    metadata.apply_cloudflare_defaults(&platform);
    assert_eq!(metadata.worker_name.as_deref(), Some("kept"));
}

#[test]
fn cloud_run_defaults_fall_back_to_environment_and_host() {
    let request = Request::builder().uri("/").body(()).unwrap();
    let (parts, _) = request.into_parts();
    let head = head_of(&parts, vec![]);
    let platform = CloudRunPlatform::default();

    let mut metadata = RequestMetadata::default();
    metadata.host = Some("svc-4711.europe-west1.run.app".to_string());
    metadata.apply_cloud_run_defaults(&head, &platform, &Environment::empty());
    assert_eq!(metadata.cloud_run_region.as_deref(), Some("europe-west1"));
    assert_eq!(metadata.region.as_deref(), Some("europe-west1"));
    assert_eq!(metadata.project_id.as_deref(), Some("4711"));
    assert_eq!(metadata.worker_name, None);
    assert!(metadata.trace_context.is_none());

    let environment = Environment::empty().with("GCLOUD_PROJECT", "from-env");
    let mut metadata = RequestMetadata::default();
    metadata.host = Some("svc-4711.uc.run.app".to_string());
    metadata.region = Some("kept".to_string());
    metadata.apply_cloud_run_defaults(&head, &platform, &environment);
    assert_eq!(metadata.cloud_run_region.as_deref(), Some("us-central1"));
    assert_eq!(metadata.region.as_deref(), Some("kept"));
    assert_eq!(metadata.project_id.as_deref(), Some("from-env"));
}

#[test]
fn trace_header_does_not_replace_a_request_id() {
    let request = Request::builder()
        .uri("/")
        .header("cf-ray", "ray")
        .header("x-cloud-trace-context", "trace/9;o=0")
        .body(())
        .unwrap();
    let (parts, _) = request.into_parts();
    let head = head_of(&parts, vec![]);
    let platform = RuntimePlatform::CloudRun(CloudRunPlatform::default());
    let metadata = RequestMetadata::from_platform(&head, &platform, &Environment::empty());
    assert_eq!(metadata.request_id.as_deref(), Some("ray"));
    let trace = metadata.trace_context.unwrap();
    assert_eq!(trace.trace_id.as_deref(), Some("trace"));
    assert_eq!(trace.sampled, Some(false));
    assert_eq!(trace.project_id, None);
}

#[test]
fn raw_url_is_rebuilt_from_scheme_host_and_path() {
    let mut metadata = RequestMetadata::default();
    metadata.host = Some("example.com".to_string());
    metadata.scheme = Some("https".to_string());
    metadata.path = "/foo?bar=baz".to_string();
    metadata.raw_url = Some("/foo?bar=baz".to_string());
    metadata.rebuild_raw_url_if_needed();
    assert_eq!(metadata.raw_url.as_deref(), Some("https://example.com/foo?bar=baz"));

    metadata.raw_url = None;
    metadata.rebuild_raw_url_if_needed();
    assert_eq!(metadata.raw_url.as_deref(), Some("https://example.com/foo?bar=baz"));

    metadata.raw_url = Some("example.com/other".to_string());
    metadata.rebuild_raw_url_if_needed();
    assert_eq!(metadata.raw_url.as_deref(), Some("https://example.com/foo?bar=baz"));

    metadata.raw_url = Some("http://elsewhere/x".to_string());
    metadata.rebuild_raw_url_if_needed();
    assert_eq!(metadata.raw_url.as_deref(), Some("http://elsewhere/x"));

    metadata.raw_url = Some("/x".to_string());
    metadata.scheme = None;
    metadata.rebuild_raw_url_if_needed();
    assert_eq!(metadata.raw_url.as_deref(), Some("/x"));
}

#[test]
fn sent_record_is_read_field_by_field() {
    let doc = serde_json::from_str::<Value>(
        "{\"request_id\":\"r\",\"forwarded_for\":[\"a\",\"b\"],\"method\":\"PATCH\",\
         \"trace_context\":{\"trace_id\":\"t\",\"sampled\":true},\
         \"client_hints\":{\"ua\":\"x\",\"ua_mobile\":null},\"unknown\":1}",
    )
    .unwrap();
    let metadata = RequestMetadata::from_json(&doc).unwrap();
    assert_eq!(metadata.request_id.as_deref(), Some("r"));
    assert_eq!(metadata.forwarded_for, vec!["a", "b"]);
    assert_eq!(metadata.method, "PATCH");
    assert_eq!(metadata.path, "/");
    assert_eq!(metadata.colo, None);
    let trace = metadata.trace_context.unwrap();
    assert_eq!(trace.trace_id.as_deref(), Some("t"));
    assert_eq!(trace.sampled, Some(true));
    assert_eq!(trace.span_id, None);
    let hints = metadata.client_hints.unwrap();
    assert_eq!(hints.ua.as_deref(), Some("x"));
    assert_eq!(hints.ua_mobile, None);

    let blank = RequestMetadata::from_json(&serde_json::from_str::<Value>("{}").unwrap()).unwrap();
    assert_eq!(blank.method, "GET");
    assert_eq!(blank.path, "/");
    assert!(blank.forwarded_for.is_empty());
}

#[test]
fn ill_typed_record_is_not_read() {
    let unreadable = [
        "[]",
        "null",
        "\"text\"",
        "{\"request_id\":5}",
        "{\"method\":null}",
        "{\"path\":7}",
        "{\"forwarded_for\":null}",
        "{\"forwarded_for\":\"a\"}",
        "{\"forwarded_for\":[\"a\",1]}",
        "{\"trace_context\":\"t\"}",
        "{\"trace_context\":{\"sampled\":\"yes\"}}",
        "{\"client_hints\":[]}",
        "{\"client_hints\":{\"ua\":false}}",
    ];
    for text in unreadable {
        let doc = serde_json::from_str::<Value>(text).unwrap();
        assert!(RequestMetadata::from_json(&doc).is_none(), "{text}");
    }
    assert!(TraceContext::from_json(&Value::Null).is_none());
    assert!(ClientHints::from_json(&Value::Bool(true)).is_none());
}

#[test]
fn unreadable_sent_record_falls_back_to_the_headers() {
    let request = Request::builder()
        .method("GET")
        .uri("/x")
        .header(METADATA_HEADER, "{\"request_id\":5}")
        .header("cf-ray", "ray")
        .body(())
        .unwrap();
    let (parts, _) = request.into_parts();
    let head = head_of(&parts, vec![]);
    assert!(RequestMetadata::from_metadata_header(&head).is_none());
    let platform = RuntimePlatform::Cloudflare(CloudflarePlatform {
        worker_name: Some("edge".to_string()),
    });
    let metadata = RequestMetadata::from_parts(&head, &platform, &Environment::empty());
    assert_eq!(metadata.request_id.as_deref(), Some("ray"));
    assert_eq!(metadata.worker_name.as_deref(), Some("edge"));
}

#[test]
fn client_hints_need_at_least_one_header() {
    let request = Request::builder()
        .uri("/")
        .header("sec-ch-ua-platform", "\"Linux\"")
        .header("sec-ch-ua-wow64", "?0")
        .body(())
        .unwrap();
    let (parts, _) = request.into_parts();
    let hints = ClientHints::from_headers(&head_of(&parts, vec![])).unwrap();
    assert_eq!(hints.ua, None);
    assert_eq!(hints.ua_platform.as_deref(), Some("\"Linux\""));
    assert_eq!(hints.ua_wow64.as_deref(), Some("?0"));

    let request = Request::builder().uri("/").header("accept", "*/*").body(()).unwrap();
    let (parts, _) = request.into_parts();
    assert!(ClientHints::from_headers(&head_of(&parts, vec![])).is_none());
    assert!(ClientHints::default().ua.is_none());
    assert!(ClientHints::default().ua_full_version_list.is_none());
}

#[test]
fn context_needs_client_and_platform() {
    let request = Request::builder().uri("/only/path").header("host", "h").body(()).unwrap();
    let (parts, _) = request.into_parts();
    let head = head_of(&parts, vec![]);
    let environment = Environment::empty();
    let client = CommandClient::unavailable("none");

    let rejection =
        ContainerContext::from_request_parts(&head, None, None, &environment).unwrap_err();
    assert_eq!(rejection, ContainerContextRejection::MissingCommandClient);
    assert_eq!(rejection.message(), "command client missing from request extensions");

    let rejection = ContainerContext::from_request_parts(
        &head,
        None,
        Some(RuntimePlatform::Generic),
        &environment,
    )
    .unwrap_err();
    assert_eq!(rejection, ContainerContextRejection::MissingCommandClient);

    let rejection =
        ContainerContext::from_request_parts(&head, Some(client.clone()), None, &environment)
            .unwrap_err();
    assert_eq!(rejection, ContainerContextRejection::MissingRuntimePlatform);
    assert_eq!(
        rejection.into_response(),
        (500, "runtime platform missing from request extensions".to_string())
    );
    assert_eq!(REJECTION_STATUS, 500);
}

#[test]
fn context_holds_what_it_was_made_of() {
    let request = Request::builder()
        .uri("/only/path")
        .header("host", "h.example")
        .header("x-forwarded-proto", "https")
        .body(())
        .unwrap();
    let (parts, _) = request.into_parts();
    let head = head_of(&parts, vec![]);
    let client = CommandClient::unavailable("no bus");
    let context = ContainerContext::from_request_parts(
        &head,
        Some(client),
        Some(RuntimePlatform::Generic),
        &Environment::empty(),
    )
    .unwrap();
    assert_eq!(context.metadata().path, "/only/path");
    assert_eq!(context.metadata().raw_url.as_deref(), Some("https://h.example/only/path"));
    assert!(matches!(context.platform(), RuntimePlatform::Generic));
    assert_eq!(
        context.command_client().unavailable_reason().map(|reason| reason.as_str()),
        Some("no bus")
    );
    match context.invoke(&containerflare::message::CommandRequest::empty("ping")) {
        containerflare::client::Transmit::Abort(error) => {
            assert_eq!(error.message(), "command channel unavailable: no bus")
        }
        other => panic!("unexpected step: {:?}", other),
    }
}
