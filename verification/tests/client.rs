use google_cloud_auth::credentials::anonymous;
use google_cloud_auth::credentials::EntityTag;
use http::{HeaderMap, HeaderValue};
use rig_gemini_grpc::call_metadata::{count_headers, has_room_for, MetadataText, KEY_ROOM};
use rig_gemini_grpc::client::{
    Client, GeminiGrpcEndpoint, GOOGLE_STUDIO_GRPC_ENDPOINT, RIG_GRPC_CLIENT_IDENTIFIER,
};
use rig_gemini_grpc::endpoint::{ChannelSettings, Tls};
use rig_gemini_grpc::vertex::client::{
    build_auth, build_credentials, channel_settings, default_credentials_built,
    impersonation_built, oauth_headers, AuthHeaderCache, AuthHeaders, AuthSource, CredentialsStep,
    VertexAuth, VertexClient, VertexClientBuilder, VertexClientError, VertexGrpcEndpoint,
    DEFAULT_LOCATION, RIG_VERTEX_GRPC_CLIENT_IDENTIFIER,
};
use tonic::metadata::{Ascii, MetadataKey, MetadataMap, MetadataValue};

fn known(source: AuthSource) -> VertexAuth {
    match source {
        AuthSource::Known(auth) => auth,
        AuthSource::DefaultCredentials => panic!("authentication should be at hand"),
    }
}

fn client_with(auth: VertexAuth) -> VertexClient {
    VertexClient::new(
        "test-project".to_string(),
        DEFAULT_LOCATION.to_string(),
        VertexGrpcEndpoint::Global,
        auth,
    )
}

fn key_client() -> VertexClient {
    client_with(known(
        build_auth(Some("test-key".to_string()), None, None).expect("auth should build"),
    ))
}

fn oauth_client() -> VertexClient {
    client_with(known(
        build_auth(None, Some(anonymous::Builder::new().build()), None).expect("auth should build"),
    ))
}

#[test]
fn apply_auth_inserts_api_key_metadata() {
    let client = key_client();

    let mut request = tonic::Request::new(());
    client
        .apply_auth(request.metadata_mut(), &HeaderMap::new())
        .expect("apply_auth should succeed");

    let api_key = request
        .metadata()
        .get("x-goog-api-key")
        .expect("x-goog-api-key should be set");
    assert_eq!(api_key.to_str().expect("api key is ascii"), "test-key");

    let client_id = request
        .metadata()
        .get("x-goog-api-client")
        .expect("x-goog-api-client should be set");
    assert_eq!(
        client_id.to_str().expect("client id is ascii"),
        RIG_VERTEX_GRPC_CLIENT_IDENTIFIER
    );
}

#[test]
fn build_auth_rejects_empty_api_key() {
    assert!(matches!(
        build_auth(Some("   ".to_string()), None, None),
        Err(VertexClientError::EmptyApiKey)
    ));
}

#[test]
fn api_keys_are_trimmed() {
    let auth = known(build_auth(Some(" \t key\u{3000}\n".to_string()), None, None).unwrap_or_else(
        |_| panic!("auth should build"),
    ));
    assert!(matches!(auth, VertexAuth::ApiKey { api_key } if api_key.as_str() == "key"));
    let auth = known(build_auth(None, None, Some("  env ".to_string())).unwrap_or_else(|_| {
        panic!("auth should build")
    }));
    assert!(matches!(auth, VertexAuth::ApiKey { api_key } if api_key.as_str() == "env"));
}

#[test]
fn an_empty_key_of_the_environment_is_rejected() {
    assert!(matches!(
        build_auth(None, None, Some("\n".to_string())),
        Err(VertexClientError::EmptyApiKey)
    ));
}

#[test]
fn key_and_credentials_conflict() {
    let credentials = anonymous::Builder::new().build();
    assert!(matches!(
        build_auth(Some("key".to_string()), Some(credentials), None),
        Err(VertexClientError::ConflictingAuth)
    ));
    let credentials = anonymous::Builder::new().build();
    assert!(matches!(
        build_auth(Some(" ".to_string()), Some(credentials), None),
        Err(VertexClientError::EmptyApiKey)
    ));
}

#[test]
fn keys_with_control_characters_are_rejected() {
    assert!(matches!(
        build_auth(Some("a\nb".to_string()), None, None),
        Err(VertexClientError::InvalidMetadataValue)
    ));
    assert!(matches!(
        build_auth(None, None, Some("a\u{7f}b".to_string())),
        Err(VertexClientError::InvalidMetadataValue)
    ));
    assert!(build_auth(Some("a\tb".to_string()), None, None).is_ok());
    assert!(build_auth(Some("k\u{e9}y".to_string()), None, None).is_ok());
}

#[test]
fn explicit_auth_wins_over_the_environment() {
    let auth = known(
        build_auth(Some("given".to_string()), None, Some("env".to_string()))
            .unwrap_or_else(|_| panic!("auth should build")),
    );
    assert!(matches!(auth, VertexAuth::ApiKey { api_key } if api_key.as_str() == "given"));
    let credentials = anonymous::Builder::new().build();
    let auth = known(
        build_auth(None, Some(credentials), Some(" ".to_string()))
            .unwrap_or_else(|_| panic!("auth should build")),
    );
    assert!(matches!(auth, VertexAuth::Credentials { .. }));
    assert!(matches!(build_auth(None, None, None), Ok(AuthSource::DefaultCredentials)));
}

#[test]
fn credentials_are_built_step_by_step() {
    assert!(matches!(
        build_credentials(Some(anonymous::Builder::new().build())),
        CredentialsStep::Ready(_)
    ));
    assert!(matches!(build_credentials(None), CredentialsStep::BuildDefault));
    assert!(matches!(
        default_credentials_built(Ok(anonymous::Builder::new().build()), None),
        Ok(CredentialsStep::Ready(_))
    ));
    let step = default_credentials_built(
        Ok(anonymous::Builder::new().build()),
        Some("robot@example.com".to_string()),
    );
    assert!(matches!(
        step,
        Ok(CredentialsStep::Impersonate { target_principal, .. })
            if target_principal == "robot@example.com"
    ));
    assert!(matches!(
        default_credentials_built(Err("gone".to_string()), Some("robot".to_string())),
        Err(VertexClientError::Credentials(e)) if e == "gone"
    ));
    assert!(matches!(
        impersonation_built(Err("no".to_string())),
        Err(VertexClientError::Impersonation(e)) if e == "no"
    ));
    assert!(matches!(
        impersonation_built(Ok(anonymous::Builder::new().build())),
        Ok(CredentialsStep::Ready(_))
    ));
}

#[test]
fn oauth_headers_become_metadata() {
    let client = oauth_client();
    let mut headers = HeaderMap::new();
    headers.insert("Authorization", HeaderValue::from_static("Bearer t"));
    headers.append("x-many", HeaderValue::from_static("one"));
    headers.append("x-many", HeaderValue::from_static("two"));
    let mut metadata = MetadataMap::new();
    metadata.insert("kept", MetadataValue::from_static("here"));
    metadata.append("x-many", MetadataValue::from_static("old"));
    client.apply_auth(&mut metadata, &headers).expect("headers are fine");
    assert_eq!(metadata.get("authorization").unwrap().to_str().unwrap(), "Bearer t");
    assert_eq!(metadata.get("x-goog-api-client").unwrap().to_str().unwrap(), "rig-grpc/0.1.0");
    assert_eq!(metadata.get("kept").unwrap().to_str().unwrap(), "here");
    let many: Vec<&str> =
        metadata.get_all("x-many").iter().map(|value| value.to_str().unwrap()).collect();
    assert_eq!(many, vec!["two"]);
    assert!(metadata.get("x-goog-api-key").is_none());
}

#[test]
fn an_api_key_client_ignores_oauth_headers() {
    let mut headers = HeaderMap::new();
    headers.insert("authorization", HeaderValue::from_static("Bearer t"));
    let mut metadata = MetadataMap::new();
    key_client().apply_auth(&mut metadata, &headers).expect("a key is enough");
    assert!(metadata.get("authorization").is_none());
    assert_eq!(metadata.keys_len(), 2);
}

#[test]
fn binary_header_names_are_refused() {
    let client = oauth_client();
    let mut headers = HeaderMap::new();
    headers.insert("x-first", HeaderValue::from_static("1"));
    headers.insert("trace-bin", HeaderValue::from_static("AA"));
    let mut metadata = MetadataMap::new();
    let error = client.apply_auth(&mut metadata, &headers).expect_err("binary keys are no text");
    assert_eq!(error, VertexClientError::InvalidMetadataKey);
    assert!(metadata.get("x-goog-api-client").is_none());
}

#[test]
fn opaque_header_values_are_refused() {
    let client = oauth_client();
    let mut headers = HeaderMap::new();
    headers.insert("x-opaque", HeaderValue::from_bytes(&[0xff]).unwrap());
    let mut metadata = MetadataMap::new();
    let error = client.apply_auth(&mut metadata, &headers).expect_err("0xff is no text");
    assert_eq!(error, VertexClientError::HeaderValueToStr);
    assert_eq!(metadata.keys_len(), 0);
}

#[test]
fn full_metadata_is_left_alone() {
    let mut metadata = MetadataMap::new();
    for i in 0..KEY_ROOM - 1 {
        let key: MetadataKey<Ascii> = format!("k{i}").parse().unwrap();
        metadata.insert(key, MetadataValue::from_static("v"));
    }
    assert!(has_room_for(&metadata, 1));
    assert!(!has_room_for(&metadata, 2));
    assert!(!has_room_for(&metadata, usize::MAX));
    assert_eq!(key_client().apply_auth_if_room(&mut metadata, &HeaderMap::new()), None);
    assert_eq!(metadata.keys_len(), KEY_ROOM - 1);
    assert_eq!(
        oauth_client().apply_auth_if_room(&mut metadata, &HeaderMap::new()),
        Some(Ok(()))
    );
    assert_eq!(metadata.keys_len(), KEY_ROOM);
    let mut roomy = MetadataMap::new();
    assert_eq!(
        key_client().apply_auth_if_room(&mut roomy, &HeaderMap::new()),
        Some(Ok(()))
    );
}

#[test]
fn metadata_text_takes_what_tonic_takes() {
    for text in ["", "plain", "tab\there", "caf\u{e9}", "nul\u{0}", "del\u{7f}", "line\n"] {
        let taken = MetadataText::parse(text);
        assert_eq!(taken.is_some(), MetadataValue::<Ascii>::try_from(text).is_ok(), "{text:?}");
        if let Some(taken) = taken {
            assert_eq!(taken.as_str(), text);
        }
    }
    assert!(MetadataText::parse("nul\u{0}").is_none());
}

#[test]
fn headers_are_counted_by_value() {
    let mut headers = HeaderMap::new();
    assert_eq!(count_headers(&headers), 0);
    headers.append("a", HeaderValue::from_static("1"));
    headers.append("a", HeaderValue::from_static("2"));
    headers.append("b", HeaderValue::from_static("3"));
    assert_eq!(count_headers(&headers), 3);
}

fn some_headers(value: &'static str) -> HeaderMap {
    let mut headers = HeaderMap::new();
    headers.insert("authorization", HeaderValue::from_static(value));
    headers
}

#[test]
fn cached_headers_are_reused() {
    let mut cache = AuthHeaderCache::default();
    assert!(cache.entity_tag.is_none() && cache.headers.is_none());
    let tag = EntityTag::new();
    let asked = cache.snapshot();
    let first = oauth_headers(
        &mut cache,
        asked,
        Ok(AuthHeaders::New { entity_tag: tag.clone(), data: some_headers("one") }),
    );
    assert_eq!(first, Ok(some_headers("one")));
    assert_eq!(cache.entity_tag, Some(tag.clone()));
    let asked = cache.snapshot();
    assert_eq!(asked.entity_tag, Some(tag.clone()));
    let again = oauth_headers(&mut cache, asked, Ok(AuthHeaders::NotModified));
    assert_eq!(again, Ok(some_headers("one")));
    assert_eq!(cache.headers, Some(some_headers("one")));
    assert_eq!(cache.entity_tag, Some(tag));
}

#[test]
fn unmodified_headers_have_to_be_cached() {
    let mut cache = AuthHeaderCache::default();
    let asked = cache.snapshot();
    assert_eq!(
        oauth_headers(&mut cache, asked, Ok(AuthHeaders::NotModified)),
        Err(VertexClientError::MissingCachedAuthHeaders)
    );
    let asked = cache.snapshot();
    assert_eq!(
        oauth_headers(&mut cache, asked, Err("offline".to_string())),
        Err(VertexClientError::AuthHeaders("offline".to_string()))
    );
    assert!(cache.headers.is_none());
}

#[test]
fn unmodified_headers_are_those_that_were_asked_about() {
    let mut cache = AuthHeaderCache {
        entity_tag: Some(EntityTag::new()),
        headers: Some(some_headers("old")),
    };
    let asked = cache.snapshot();
    let other = cache.snapshot();
    let newer = EntityTag::new();
    let fresh = oauth_headers(
        &mut cache,
        other,
        Ok(AuthHeaders::New { entity_tag: newer.clone(), data: some_headers("new") }),
    );
    assert_eq!(fresh, Ok(some_headers("new")));
    let late = oauth_headers(&mut cache, asked, Ok(AuthHeaders::NotModified));
    assert_eq!(late, Ok(some_headers("old")));
    assert_eq!(cache.headers, Some(some_headers("new")));
    assert_eq!(cache.entity_tag, Some(newer));
}

#[test]
fn error_messages() {
    let invalid_value = MetadataValue::<Ascii>::try_from("\n").unwrap_err();
    let invalid_key = MetadataKey::<Ascii>::from_bytes(b"a-bin").unwrap_err();
    let not_text = HeaderValue::from_bytes(&[0xff]).unwrap();
    let not_text = not_text.to_str().unwrap_err();
    let cases = [
        (
            VertexClientError::MissingProject,
            "missing Google Cloud project; set it via VertexClientBuilder::with_project() or GOOGLE_CLOUD_PROJECT".to_string(),
        ),
        (
            VertexClientError::ConflictingAuth,
            "conflicting auth configuration: both an API key and explicit credentials were provided".to_string(),
        ),
        (VertexClientError::EmptyApiKey, "Vertex API key is empty".to_string()),
        (
            VertexClientError::Transport("transport error".to_string()),
            "gRPC transport error: transport error".to_string(),
        ),
        (
            VertexClientError::Credentials("c".to_string()),
            "failed to build Google Cloud credentials: c".to_string(),
        ),
        (
            VertexClientError::Impersonation("i".to_string()),
            "failed to build impersonated credentials: i".to_string(),
        ),
        (
            VertexClientError::AuthHeaders("h".to_string()),
            "failed to fetch auth headers: h".to_string(),
        ),
        (
            VertexClientError::MissingCachedAuthHeaders,
            "auth headers were reported as not modified but no cached headers are available".to_string(),
        ),
        (
            VertexClientError::HeaderValueToStr,
            format!("auth header value is not valid UTF-8: {not_text}"),
        ),
        (
            VertexClientError::InvalidMetadataKey,
            format!("invalid gRPC metadata key: {invalid_key}"),
        ),
        (
            VertexClientError::InvalidMetadataValue,
            format!("invalid gRPC metadata value: {invalid_value}"),
        ),
    ];
    for (error, message) in cases {
        assert_eq!(error.message(), message);
    }
}

#[test]
fn model_paths() {
    let client = key_client();
    assert_eq!(
        client.resolve_model_path("gemini-2.5-flash"),
        "projects/test-project/locations/global/publishers/google/models/gemini-2.5-flash"
    );
    for path in ["projects/p/locations/l/endpoints/1", "publishers/google/models/m", "endpoints/7"] {
        assert_eq!(client.resolve_model_path(path), path);
    }
    let path = client.resolve_model_path("project");
    assert_eq!(client.resolve_model_path(&path), path);
    assert_ne!(path, client.resolve_model_path("projects"));
}

#[test]
fn a_project_is_needed() {
    assert!(matches!(
        VertexClient::builder().build(None, Some("europe-west4".to_string())),
        Err(VertexClientError::MissingProject)
    ));
}

#[test]
fn the_environment_fills_gaps() {
    let plan = VertexClientBuilder::new()
        .build(Some("env-project".to_string()), Some("us-central1".to_string()))
        .unwrap_or_else(|_| panic!("there is a project"));
    assert_eq!(plan.project, "env-project");
    assert_eq!(plan.location, "us-central1");
    assert_eq!(
        plan.endpoint,
        VertexGrpcEndpoint::Regional { region: "us-central1".to_string() }
    );
    assert!(plan.credentials.is_none() && plan.api_key.is_none());
}

#[test]
fn the_builder_wins_over_the_environment() {
    let plan = VertexClientBuilder::new()
        .with_project("mine")
        .with_location("global")
        .with_api_key("key")
        .with_credentials(anonymous::Builder::new().build())
        .build(Some("env-project".to_string()), Some("us-central1".to_string()))
        .unwrap_or_else(|_| panic!("there is a project"));
    assert_eq!(plan.project, "mine");
    assert_eq!(plan.location, "global");
    assert_eq!(plan.endpoint, VertexGrpcEndpoint::Global);
    assert_eq!(plan.api_key, Some("key".to_string()));
    assert!(plan.credentials.is_some());
}

#[test]
fn locations_default_to_global() {
    let plan = VertexClientBuilder::default()
        .with_project("p")
        .build(None, None)
        .unwrap_or_else(|_| panic!("there is a project"));
    assert_eq!(plan.location, "global");
    assert_eq!(plan.endpoint, VertexGrpcEndpoint::Global);
    let plan = VertexClientBuilder::new()
        .with_project("p")
        .with_location("globalx")
        .build(None, None)
        .unwrap_or_else(|_| panic!("there is a project"));
    assert_eq!(plan.endpoint, VertexGrpcEndpoint::Regional { region: "globalx".to_string() });
}

#[test]
fn an_endpoint_can_be_given() {
    let custom = VertexGrpcEndpoint::Custom { url: "http://localhost:1".to_string() };
    let plan = VertexClientBuilder::new()
        .with_project("p")
        .with_location("us-east1")
        .with_endpoint(custom)
        .build(None, None)
        .unwrap_or_else(|_| panic!("there is a project"));
    assert_eq!(plan.location, "us-east1");
    assert_eq!(
        plan.endpoint,
        VertexGrpcEndpoint::Custom { url: "http://localhost:1".to_string() }
    );
    assert_eq!(VertexGrpcEndpoint::default(), VertexGrpcEndpoint::Global);
}

#[test]
fn vertex_channels() {
    assert_eq!(
        channel_settings(&VertexGrpcEndpoint::Global),
        ChannelSettings {
            url: "https://aiplatform.googleapis.com".to_string(),
            tls: Tls::Domain("aiplatform.googleapis.com".to_string()),
        }
    );
    assert_eq!(
        channel_settings(&VertexGrpcEndpoint::Regional { region: "europe-west4".to_string() }),
        ChannelSettings {
            url: "https://europe-west4-aiplatform.googleapis.com".to_string(),
            tls: Tls::WebRoots,
        }
    );
    for (url, tls) in [
        ("https://gateway.example", Tls::WebRoots),
        ("http://localhost:50051", Tls::Off),
        ("HTTPS://upper.example", Tls::Off),
        ("https:/", Tls::Off),
    ] {
        assert_eq!(
            channel_settings(&VertexGrpcEndpoint::Custom { url: url.to_string() }),
            ChannelSettings { url: url.to_string(), tls }
        );
    }
}

#[test]
fn client_accessors() {
    let client = key_client();
    assert_eq!(client.project(), "test-project");
    assert_eq!(client.location(), "global");
    assert_eq!(client.endpoint(), &VertexGrpcEndpoint::Global);
    assert!(matches!(client.auth(), VertexAuth::ApiKey { .. }));
}

#[test]
fn studio_channels() {
    assert_eq!(GeminiGrpcEndpoint::default(), GeminiGrpcEndpoint::GoogleStudio);
    assert_eq!(
        Client::new("k".to_string()).channel(),
        &ChannelSettings {
            url: GOOGLE_STUDIO_GRPC_ENDPOINT.to_string(),
            tls: Tls::Domain("generativelanguage.googleapis.com".to_string()),
        }
    );
    let endpoint = GeminiGrpcEndpoint::Custom { url: "https://proxy.example".to_string() };
    assert_eq!(
        Client::new_with_endpoint("k".to_string(), endpoint).channel(),
        &ChannelSettings { url: "https://proxy.example".to_string(), tls: Tls::WebRoots }
    );
    let endpoint = GeminiGrpcEndpoint::Custom { url: "http://proxy.example".to_string() };
    assert_eq!(
        Client::new_with_endpoint("k".to_string(), endpoint).channel(),
        &ChannelSettings { url: "http://proxy.example".to_string(), tls: Tls::Off }
    );
}

#[test]
fn interceptor_inserts_key_and_client() {
    let interceptor = Client::new("studio-key".to_string())
        .interceptor()
        .unwrap_or_else(|_| panic!("the key is fine"));
    let mut metadata = MetadataMap::new();
    metadata.insert("kept", MetadataValue::from_static("here"));
    interceptor.call(&mut metadata);
    assert_eq!(metadata.get("x-goog-api-key").unwrap().to_str().unwrap(), "studio-key");
    assert_eq!(
        metadata.get("x-goog-api-client").unwrap().to_str().unwrap(),
        RIG_GRPC_CLIENT_IDENTIFIER
    );
    assert_eq!(metadata.get("kept").unwrap().to_str().unwrap(), "here");
    assert!(interceptor.call_if_room(&mut metadata));
    assert_eq!(metadata.keys_len(), 3);
}

#[test]
fn a_studio_key_has_to_be_a_metadata_value() {
    let error = match Client::new("a\nb".to_string()).interceptor() {
        Ok(_) => panic!("a line break is no metadata"),
        Err(error) => error,
    };
    assert_eq!(
        error.message(),
        MetadataValue::<Ascii>::try_from("a\nb").unwrap_err().to_string()
    );
}

#[test]
fn authenticating_twice_changes_nothing() {
    let mut headers = some_headers("Bearer t");
    headers.append("x-goog-api-client", HeaderValue::from_static("other"));
    for client in [key_client(), oauth_client()] {
        let mut metadata = MetadataMap::new();
        metadata.append("x-goog-api-key", MetadataValue::from_static("old"));
        metadata.append("x-goog-api-key", MetadataValue::from_static("older"));
        client.apply_auth(&mut metadata, &headers).expect("headers are fine");
        let once = metadata.clone().into_headers();
        client.apply_auth(&mut metadata, &headers).expect("headers are fine");
        assert_eq!(metadata.into_headers(), once);
        assert_eq!(once.get_all("x-goog-api-client").iter().count(), 1);
    }
}

#[test]
fn an_api_key_replaces_what_was_there() {
    let mut metadata = MetadataMap::new();
    metadata.append("x-goog-api-key", MetadataValue::from_static("old"));
    metadata.append("x-goog-api-key", MetadataValue::from_static("older"));
    metadata.insert("kept", MetadataValue::from_static("here"));
    key_client().apply_auth(&mut metadata, &HeaderMap::new()).expect("a key is enough");
    let keys: Vec<&str> =
        metadata.get_all("x-goog-api-key").iter().map(|value| value.to_str().unwrap()).collect();
    assert_eq!(keys, vec!["test-key"]);
    assert_eq!(metadata.get("kept").unwrap().to_str().unwrap(), "here");
}
