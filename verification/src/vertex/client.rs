//! The Vertex AI client: where it sends requests, and how it proves who it is.
use crate::endpoint;
use crate::endpoint::{ChannelSettings, ChannelSettingsView, Tls, TlsView};
use crate::call_metadata;
use crate::call_metadata::{
    Entries, HeaderError, Headers, MetadataText, API_CLIENT_HEADER, API_KEY_HEADER,
};
use crate::model;
use crate::text;
use vstd::prelude::*;

verus! {

/// The location of a client that was not given one.
pub const DEFAULT_LOCATION: &'static str = "global";

/// The URL of the global endpoint.
pub const VERTEX_GLOBAL_GRPC_ENDPOINT: &'static str = "https://aiplatform.googleapis.com";

/// The domain of the global endpoint.
pub const VERTEX_GLOBAL_GRPC_TLS_DOMAIN: &'static str = "aiplatform.googleapis.com";

/// How the client names itself to the service.
pub const RIG_VERTEX_GRPC_CLIENT_IDENTIFIER: &'static str = "rig-grpc/0.1.0";

#[verifier::external_type_specification]
#[verifier::external_body]
pub struct ExCredentials(google_cloud_auth::credentials::Credentials);

#[verifier::external_type_specification]
#[verifier::external_body]
pub struct ExEntityTag(google_cloud_auth::credentials::EntityTag);

/// Endpoint routing for Vertex AI gRPC requests.
#[derive(Debug, PartialEq, Eq)]
pub enum VertexGrpcEndpoint {
    /// Global Vertex endpoint: `https://aiplatform.googleapis.com`.
    Global,
    /// Regional Vertex endpoint: `https://{region}-aiplatform.googleapis.com`.
    Regional { region: String },
    /// Custom endpoint override, for example an internal gateway/proxy URL.
    Custom { url: String },
}

/// What a `VertexGrpcEndpoint` stands for.
pub enum VertexGrpcEndpointView {
    Global,
    Regional { region: Seq<char> },
    Custom { url: Seq<char> },
}

impl View for VertexGrpcEndpoint {
    type V = VertexGrpcEndpointView;

    open spec fn view(&self) -> VertexGrpcEndpointView {
        match self {
            VertexGrpcEndpoint::Global => VertexGrpcEndpointView::Global,
            VertexGrpcEndpoint::Regional { region } => VertexGrpcEndpointView::Regional {
                region: region@,
            },
            VertexGrpcEndpoint::Custom { url } => VertexGrpcEndpointView::Custom { url: url@ },
        }
    }
}

impl Default for VertexGrpcEndpoint {
    fn default() -> (r: VertexGrpcEndpoint)
        ensures
            r@ == VertexGrpcEndpointView::Global,
    {
        VertexGrpcEndpoint::Global
    }
}

impl Clone for VertexGrpcEndpoint {
    fn clone(&self) -> (r: VertexGrpcEndpoint)
        ensures
            r@ == self@,
    {
        match self {
            VertexGrpcEndpoint::Global => VertexGrpcEndpoint::Global,
            VertexGrpcEndpoint::Regional { region } => VertexGrpcEndpoint::Regional {
                region: region.clone(),
            },
            VertexGrpcEndpoint::Custom { url } => VertexGrpcEndpoint::Custom { url: url.clone() },
        }
    }
}

/// The URL of a region's endpoint.
pub open spec fn regional_url(region: Seq<char>) -> Seq<char> {
    "https://"@ + region + "-aiplatform.googleapis.com"@
}

/// How the channel to an endpoint is set up.
pub open spec fn endpoint_settings(endpoint: VertexGrpcEndpointView) -> ChannelSettingsView {
    match endpoint {
        VertexGrpcEndpointView::Global => ChannelSettingsView {
            url: VERTEX_GLOBAL_GRPC_ENDPOINT@,
            tls: TlsView::Domain(VERTEX_GLOBAL_GRPC_TLS_DOMAIN@),
        },
        VertexGrpcEndpointView::Regional { region } => ChannelSettingsView {
            url: regional_url(region),
            tls: TlsView::WebRoots,
        },
        VertexGrpcEndpointView::Custom { url } => endpoint::custom_settings(url),
    }
}

/// How the channel to an endpoint is set up.
pub fn channel_settings(endpoint: &VertexGrpcEndpoint) -> (r: ChannelSettings)
    ensures
        r@ == endpoint_settings(endpoint@),
{
    match endpoint {
        VertexGrpcEndpoint::Global => ChannelSettings::fixed(
            VERTEX_GLOBAL_GRPC_ENDPOINT,
            VERTEX_GLOBAL_GRPC_TLS_DOMAIN,
        ),
        VertexGrpcEndpoint::Regional { region } => {
            let mut url = "https://".to_string();
            url.append(region.as_str());
            url.append("-aiplatform.googleapis.com");
            ChannelSettings { url, tls: Tls::WebRoots }
        },
        VertexGrpcEndpoint::Custom { url } => ChannelSettings::custom(url.as_str()),
    }
}

/// Why a client cannot be built or cannot authenticate a request. Texts are those of the
/// underlying errors.
#[derive(Debug, PartialEq, Eq)]
pub enum VertexClientError {
    /// No project was given.
    MissingProject,
    /// Both an API key and credentials were given.
    ConflictingAuth,
    /// The API key is empty.
    EmptyApiKey,
    /// The channel cannot be set up.
    Transport(String),
    /// The default credentials cannot be had.
    Credentials(String),
    /// The service account cannot be impersonated.
    Impersonation(String),
    /// The credentials give no headers.
    AuthHeaders(String),
    /// The headers are said to be unchanged, and there are none from before.
    MissingCachedAuthHeaders,
    /// A header value is not visible ASCII.
    HeaderValueToStr,
    /// A header name cannot be a metadata key.
    InvalidMetadataKey,
    /// A text cannot be a metadata value.
    InvalidMetadataValue,
}

/// What a `VertexClientError` stands for.
pub enum VertexClientErrorView {
    MissingProject,
    ConflictingAuth,
    EmptyApiKey,
    Transport(Seq<char>),
    Credentials(Seq<char>),
    Impersonation(Seq<char>),
    AuthHeaders(Seq<char>),
    MissingCachedAuthHeaders,
    HeaderValueToStr,
    InvalidMetadataKey,
    InvalidMetadataValue,
}

impl View for VertexClientError {
    type V = VertexClientErrorView;

    open spec fn view(&self) -> VertexClientErrorView {
        match self {
            VertexClientError::MissingProject => VertexClientErrorView::MissingProject,
            VertexClientError::ConflictingAuth => VertexClientErrorView::ConflictingAuth,
            VertexClientError::EmptyApiKey => VertexClientErrorView::EmptyApiKey,
            VertexClientError::Transport(e) => VertexClientErrorView::Transport(e@),
            VertexClientError::Credentials(e) => VertexClientErrorView::Credentials(e@),
            VertexClientError::Impersonation(e) => VertexClientErrorView::Impersonation(e@),
            VertexClientError::AuthHeaders(e) => VertexClientErrorView::AuthHeaders(e@),
            VertexClientError::MissingCachedAuthHeaders =>
                VertexClientErrorView::MissingCachedAuthHeaders,
            VertexClientError::HeaderValueToStr => VertexClientErrorView::HeaderValueToStr,
            VertexClientError::InvalidMetadataKey => VertexClientErrorView::InvalidMetadataKey,
            VertexClientError::InvalidMetadataValue => VertexClientErrorView::InvalidMetadataValue,
        }
    }
}

/// The text of an error.
pub open spec fn error_text(error: VertexClientErrorView) -> Seq<char> {
    match error {
        VertexClientErrorView::MissingProject =>
            "missing Google Cloud project; set it via VertexClientBuilder::with_project() or GOOGLE_CLOUD_PROJECT"@,
        VertexClientErrorView::ConflictingAuth =>
            "conflicting auth configuration: both an API key and explicit credentials were provided"@,
        VertexClientErrorView::EmptyApiKey => "Vertex API key is empty"@,
        VertexClientErrorView::Transport(e) => "gRPC transport error: "@ + e,
        VertexClientErrorView::Credentials(e) =>
            "failed to build Google Cloud credentials: "@ + e,
        VertexClientErrorView::Impersonation(e) =>
            "failed to build impersonated credentials: "@ + e,
        VertexClientErrorView::AuthHeaders(e) => "failed to fetch auth headers: "@ + e,
        VertexClientErrorView::MissingCachedAuthHeaders =>
            "auth headers were reported as not modified but no cached headers are available"@,
        VertexClientErrorView::HeaderValueToStr =>
            "auth header value is not valid UTF-8: failed to convert header to a str"@,
        VertexClientErrorView::InvalidMetadataKey =>
            "invalid gRPC metadata key: invalid gRPC metadata key name"@,
        VertexClientErrorView::InvalidMetadataValue =>
            "invalid gRPC metadata value: failed to parse metadata value"@,
    }
}

impl VertexClientError {
    /// The text of the error.
    pub fn message(&self) -> (r: String)
        ensures
            r@ == error_text(self@),
    {
        match self {
            VertexClientError::MissingProject =>
                "missing Google Cloud project; set it via VertexClientBuilder::with_project() or GOOGLE_CLOUD_PROJECT".to_string(),
            VertexClientError::ConflictingAuth =>
                "conflicting auth configuration: both an API key and explicit credentials were provided".to_string(),
            VertexClientError::EmptyApiKey => "Vertex API key is empty".to_string(),
            VertexClientError::Transport(e) => text::append_to("gRPC transport error: ", e.as_str()),
            VertexClientError::Credentials(e) => text::append_to(
                "failed to build Google Cloud credentials: ",
                e.as_str(),
            ),
            VertexClientError::Impersonation(e) => text::append_to(
                "failed to build impersonated credentials: ",
                e.as_str(),
            ),
            VertexClientError::AuthHeaders(e) => text::append_to(
                "failed to fetch auth headers: ",
                e.as_str(),
            ),
            VertexClientError::MissingCachedAuthHeaders =>
                "auth headers were reported as not modified but no cached headers are available".to_string(),
            VertexClientError::HeaderValueToStr =>
                "auth header value is not valid UTF-8: failed to convert header to a str".to_string(),
            VertexClientError::InvalidMetadataKey =>
                "invalid gRPC metadata key: invalid gRPC metadata key name".to_string(),
            VertexClientError::InvalidMetadataValue =>
                "invalid gRPC metadata value: failed to parse metadata value".to_string(),
        }
    }
}

/// How a client proves who it is.
pub enum VertexAuth {
    /// By an API key.
    ApiKey { api_key: MetadataText },
    /// By OAuth headers that the credentials give.
    Credentials { credentials: google_cloud_auth::credentials::Credentials },
}

/// What a `VertexAuth` stands for.
pub enum VertexAuthView {
    ApiKey(Seq<char>),
    Credentials(google_cloud_auth::credentials::Credentials),
}

impl View for VertexAuth {
    type V = VertexAuthView;

    open spec fn view(&self) -> VertexAuthView {
        match self {
            VertexAuth::ApiKey { api_key } => VertexAuthView::ApiKey(api_key@),
            VertexAuth::Credentials { credentials } => VertexAuthView::Credentials(*credentials),
        }
    }
}

/// `Credentials::clone` of the `google-cloud-auth` crate: the same credentials, shared.
#[verifier::external_body]
fn share_credentials(credentials: &google_cloud_auth::credentials::Credentials) -> (r:
    google_cloud_auth::credentials::Credentials)
    ensures
        r == *credentials,
{
    credentials.clone()
}

impl Clone for VertexAuth {
    fn clone(&self) -> (r: VertexAuth)
        ensures
            r@ == self@,
    {
        match self {
            VertexAuth::ApiKey { api_key } => VertexAuth::ApiKey { api_key: api_key.clone() },
            VertexAuth::Credentials { credentials } => VertexAuth::Credentials {
                credentials: share_credentials(credentials),
            },
        }
    }
}

/// Where a client's proof of who it is comes from.
pub enum AuthSource {
    /// It is at hand.
    Known(VertexAuth),
    /// From the default credentials of the environment, which are still to be built.
    DefaultCredentials,
}

/// What an `AuthSource` stands for.
pub enum AuthSourceView {
    Known(VertexAuthView),
    DefaultCredentials,
}

impl View for AuthSource {
    type V = AuthSourceView;

    open spec fn view(&self) -> AuthSourceView {
        match self {
            AuthSource::Known(auth) => AuthSourceView::Known(auth@),
            AuthSource::DefaultCredentials => AuthSourceView::DefaultCredentials,
        }
    }
}

/// Where a client's proof of who it is comes from, or why there is none.
pub type AuthResult = Result<AuthSourceView, VertexClientErrorView>;

/// Authentication by an API key, white space at either end aside.
pub open spec fn key_auth(api_key: Seq<char>) -> AuthResult {
    let key = text::trimmed(api_key);
    if key.len() == 0 {
        AuthResult::Err(VertexClientErrorView::EmptyApiKey)
    } else if !call_metadata::is_value_text(key) {
        AuthResult::Err(VertexClientErrorView::InvalidMetadataValue)
    } else {
        AuthResult::Ok(AuthSourceView::Known(VertexAuthView::ApiKey(key)))
    }
}

/// How a client proves who it is: by the API key or else the credentials that it was given, by
/// the API key of the environment, or else by the default credentials.
pub open spec fn chosen_auth(
    api_key: Option<Seq<char>>,
    credentials: Option<google_cloud_auth::credentials::Credentials>,
    env_api_key: Option<Seq<char>>,
) -> AuthResult {
    match (api_key, credentials) {
        (Some(key), None) => key_auth(key),
        (Some(key), Some(_)) => AuthResult::Err(
            if text::trimmed(key).len() == 0 {
                VertexClientErrorView::EmptyApiKey
            } else {
                VertexClientErrorView::ConflictingAuth
            },
        ),
        (None, Some(credentials)) => AuthResult::Ok(
            AuthSourceView::Known(VertexAuthView::Credentials(credentials)),
        ),
        (None, None) => match env_api_key {
            Some(key) => key_auth(key),
            None => AuthResult::Ok(AuthSourceView::DefaultCredentials),
        },
    }
}

fn trimmed_key_auth(key: &str) -> (r: Result<AuthSource, VertexClientError>)
    requires
        key@.len() > 0,
    ensures
        model::result_view(r) == (if call_metadata::is_value_text(key@) {
            AuthResult::Ok(AuthSourceView::Known(VertexAuthView::ApiKey(key@)))
        } else {
            AuthResult::Err(VertexClientErrorView::InvalidMetadataValue)
        }),
{
    match MetadataText::parse(key) {
        Some(api_key) => Ok(AuthSource::Known(VertexAuth::ApiKey { api_key })),
        None => Err(VertexClientError::InvalidMetadataValue),
    }
}

/// How a client proves who it is, from the API key and the credentials that it was given and the
/// API key of the environment.
pub fn build_auth(
    api_key: Option<String>,
    credentials: Option<google_cloud_auth::credentials::Credentials>,
    env_api_key: Option<String>,
) -> (r: Result<AuthSource, VertexClientError>)
    ensures
        model::result_view(r) == chosen_auth(
            model::opt_view(api_key),
            credentials,
            model::opt_view(env_api_key),
        ),
{
    if let Some(key) = api_key {
        let key = key.as_str().trim();
        if key.is_empty() {
            return Err(VertexClientError::EmptyApiKey);
        }
        if credentials.is_some() {
            return Err(VertexClientError::ConflictingAuth);
        }
        return trimmed_key_auth(key);
    }
    if let Some(credentials) = credentials {
        return Ok(AuthSource::Known(VertexAuth::Credentials { credentials }));
    }
    if let Some(key) = env_api_key {
        let key = key.as_str().trim();
        if key.is_empty() {
            return Err(VertexClientError::EmptyApiKey);
        }
        return trimmed_key_auth(key);
    }
    Ok(AuthSource::DefaultCredentials)
}

/// An explicit way to authenticate wins over the environment: where an API key or credentials
/// were given, the environment's API key does not matter.
pub proof fn law_explicit_auth_wins(
    api_key: Option<Seq<char>>,
    credentials: Option<google_cloud_auth::credentials::Credentials>,
    env_api_key: Option<Seq<char>>,
    other_env_api_key: Option<Seq<char>>,
)
    requires
        api_key is Some || credentials is Some,
    ensures
        chosen_auth(api_key, credentials, env_api_key) == chosen_auth(
            api_key,
            credentials,
            other_env_api_key,
        ),
{
}

/// A client never has both an API key and credentials: given both, none is built.
pub proof fn law_auth_is_exclusive(
    api_key: Seq<char>,
    credentials: google_cloud_auth::credentials::Credentials,
    env_api_key: Option<Seq<char>>,
)
    ensures
        chosen_auth(Some(api_key), Some(credentials), env_api_key) is Err,
        text::trimmed(api_key).len() > 0 ==> chosen_auth(
            Some(api_key),
            Some(credentials),
            env_api_key,
        ) == AuthResult::Err(VertexClientErrorView::ConflictingAuth),
{
}

/// What is to be done to get credentials.
pub enum CredentialsStep {
    /// They are at hand.
    Ready(google_cloud_auth::credentials::Credentials),
    /// Build the default credentials of the environment.
    BuildDefault,
    /// Build credentials that let the source impersonate a service account.
    Impersonate { source: google_cloud_auth::credentials::Credentials, target_principal: String },
}

/// What a `CredentialsStep` stands for.
pub enum CredentialsStepView {
    Ready(google_cloud_auth::credentials::Credentials),
    BuildDefault,
    Impersonate {
        source: google_cloud_auth::credentials::Credentials,
        target_principal: Seq<char>,
    },
}

impl View for CredentialsStep {
    type V = CredentialsStepView;

    open spec fn view(&self) -> CredentialsStepView {
        match self {
            CredentialsStep::Ready(credentials) => CredentialsStepView::Ready(*credentials),
            CredentialsStep::BuildDefault => CredentialsStepView::BuildDefault,
            CredentialsStep::Impersonate { source, target_principal } =>
                CredentialsStepView::Impersonate {
                source: *source,
                target_principal: target_principal@,
            },
        }
    }
}

/// The first step to credentials: those that were given, or else the default ones.
pub fn build_credentials(
    explicit_creds: Option<google_cloud_auth::credentials::Credentials>,
) -> (r: CredentialsStep)
    ensures
        r@ == (match explicit_creds {
            Some(credentials) => CredentialsStepView::Ready(credentials),
            None => CredentialsStepView::BuildDefault,
        }),
{
    match explicit_creds {
        Some(credentials) => CredentialsStep::Ready(credentials),
        None => CredentialsStep::BuildDefault,
    }
}

/// A step to credentials, or why there are none.
pub type CredentialsStepResult = Result<CredentialsStepView, VertexClientErrorView>;

/// The step after the default credentials were built, or could not be: impersonation of the
/// service account that the environment names, if it names one.
pub fn default_credentials_built(
    built: Result<google_cloud_auth::credentials::Credentials, String>,
    service_account: Option<String>,
) -> (r: Result<CredentialsStep, VertexClientError>)
    ensures
        model::result_view(r) == (match built {
            Err(e) => CredentialsStepResult::Err(VertexClientErrorView::Credentials(e@)),
            Ok(source) => match service_account {
                None => CredentialsStepResult::Ok(CredentialsStepView::Ready(source)),
                Some(account) => CredentialsStepResult::Ok(
                    CredentialsStepView::Impersonate { source, target_principal: account@ },
                ),
            },
        }),
{
    match built {
        Err(e) => Err(VertexClientError::Credentials(e)),
        Ok(source) => match service_account {
            None => Ok(CredentialsStep::Ready(source)),
            Some(target_principal) => Ok(
                CredentialsStep::Impersonate { source, target_principal },
            ),
        },
    }
}

/// The credentials after impersonation was set up, or could not be.
pub fn impersonation_built(
    built: Result<google_cloud_auth::credentials::Credentials, String>,
) -> (r: Result<CredentialsStep, VertexClientError>)
    ensures
        model::result_view(r) == (match built {
            Err(e) => CredentialsStepResult::Err(VertexClientErrorView::Impersonation(e@)),
            Ok(credentials) => CredentialsStepResult::Ok(CredentialsStepView::Ready(credentials)),
        }),
{
    match built {
        Err(e) => Err(VertexClientError::Impersonation(e)),
        Ok(credentials) => Ok(CredentialsStep::Ready(credentials)),
    }
}

/// The headers that credentials gave last, and the tag under which they gave them.
pub struct AuthHeaderCache {
    pub entity_tag: Option<google_cloud_auth::credentials::EntityTag>,
    pub headers: Option<http::HeaderMap<http::HeaderValue>>,
}

/// What an `AuthHeaderCache` stands for.
pub struct AuthHeaderCacheView {
    pub entity_tag: Option<google_cloud_auth::credentials::EntityTag>,
    pub headers: Option<Headers>,
}

/// What optional headers stand for.
pub open spec fn headers_view(headers: Option<http::HeaderMap<http::HeaderValue>>) -> Option<
    Headers,
> {
    match headers {
        Some(headers) => Some(call_metadata::header_entries(headers)),
        None => None,
    }
}

impl View for AuthHeaderCache {
    type V = AuthHeaderCacheView;

    open spec fn view(&self) -> AuthHeaderCacheView {
        AuthHeaderCacheView { entity_tag: self.entity_tag, headers: headers_view(self.headers) }
    }
}

impl Default for AuthHeaderCache {
    fn default() -> (r: AuthHeaderCache)
        ensures
            r@ == (AuthHeaderCacheView { entity_tag: None, headers: None }),
    {
        AuthHeaderCache { entity_tag: None, headers: None }
    }
}

/// `EntityTag::clone` of the `google-cloud-auth` crate: the same tag.
#[verifier::external_body]
fn copy_tag(tag: &google_cloud_auth::credentials::EntityTag) -> (r:
    google_cloud_auth::credentials::EntityTag)
    ensures
        r == *tag,
{
    tag.clone()
}

impl AuthHeaderCache {
    /// The tag and the headers that are to be used for the next request, as they are now.
    pub fn snapshot(&self) -> (r: AuthHeaderCache)
        ensures
            r@ == self@,
    {
        AuthHeaderCache {
            entity_tag: match &self.entity_tag {
                Some(tag) => Some(copy_tag(tag)),
                None => None,
            },
            headers: match &self.headers {
                Some(headers) => Some(call_metadata::copy_headers(headers)),
                None => None,
            },
        }
    }
}

/// What credentials answer when they are asked for headers.
pub enum AuthHeaders {
    /// The headers under the tag that they were asked with are still good.
    NotModified,
    /// New headers, under a new tag.
    New {
        entity_tag: google_cloud_auth::credentials::EntityTag,
        data: http::HeaderMap<http::HeaderValue>,
    },
}

/// What an `AuthHeaders` stands for.
pub enum AuthHeadersView {
    NotModified,
    New { entity_tag: google_cloud_auth::credentials::EntityTag, data: Headers },
}

impl View for AuthHeaders {
    type V = AuthHeadersView;

    open spec fn view(&self) -> AuthHeadersView {
        match self {
            AuthHeaders::NotModified => AuthHeadersView::NotModified,
            AuthHeaders::New { entity_tag, data } => AuthHeadersView::New {
                entity_tag: *entity_tag,
                data: call_metadata::header_entries(*data),
            },
        }
    }
}

/// The headers of a request, or why there are none.
pub type HeadersResult = Result<Headers, VertexClientErrorView>;

/// What the credentials answered, or why they did not.
pub type AuthHeadersResult = Result<AuthHeadersView, Seq<char>>;

/// The headers of a request, from what the credentials answered and from what was cached when
/// they were asked.
pub open spec fn request_headers(
    asked: AuthHeaderCacheView,
    answer: AuthHeadersResult,
) -> HeadersResult {
    match answer {
        Err(e) => HeadersResult::Err(VertexClientErrorView::AuthHeaders(e)),
        Ok(AuthHeadersView::NotModified) => match asked.headers {
            Some(headers) => HeadersResult::Ok(headers),
            None => HeadersResult::Err(VertexClientErrorView::MissingCachedAuthHeaders),
        },
        Ok(AuthHeadersView::New { entity_tag: _, data }) => HeadersResult::Ok(data),
    }
}

/// What is cached after the credentials answered.
pub open spec fn cached_after(
    cache: AuthHeaderCacheView,
    answer: AuthHeadersResult,
) -> AuthHeaderCacheView {
    match answer {
        Ok(AuthHeadersView::New { entity_tag, data }) => AuthHeaderCacheView {
            entity_tag: Some(entity_tag),
            headers: Some(data),
        },
        _ => cache,
    }
}

/// The headers of a request. `asked` is what was cached when the credentials were asked; by now
/// the cache may hold what came for another request.
pub fn oauth_headers(
    cache: &mut AuthHeaderCache,
    asked: AuthHeaderCache,
    answer: Result<AuthHeaders, String>,
) -> (r: Result<http::HeaderMap<http::HeaderValue>, VertexClientError>)
    ensures
        (match r {
            Ok(headers) => HeadersResult::Ok(call_metadata::header_entries(headers)),
            Err(e) => HeadersResult::Err(e@),
        }) == request_headers(asked@, model::result_view(answer)),
        final(cache)@ == cached_after(old(cache)@, model::result_view(answer)),
{
    match answer {
        Err(e) => Err(VertexClientError::AuthHeaders(e)),
        Ok(AuthHeaders::NotModified) => match asked.headers {
            Some(headers) => Ok(headers),
            None => Err(VertexClientError::MissingCachedAuthHeaders),
        },
        Ok(AuthHeaders::New { entity_tag, data }) => {
            cache.headers = Some(call_metadata::copy_headers(&data));
            cache.entity_tag = Some(entity_tag);
            Ok(data)
        },
    }
}

/// Headers that the credentials gave once serve every later request for which they say that
/// nothing has changed.
pub proof fn law_cached_headers_are_reused(
    cache: AuthHeaderCacheView,
    entity_tag: google_cloud_auth::credentials::EntityTag,
    data: Headers,
)
    ensures
        ({
            let first = AuthHeadersResult::Ok(AuthHeadersView::New { entity_tag, data });
            let later = AuthHeadersResult::Ok(AuthHeadersView::NotModified);
            let cached = cached_after(cache, first);
            &&& cached.entity_tag == Some(entity_tag)
            &&& request_headers(cached, later) == request_headers(cache, first)
            &&& cached_after(cached, later) == cached
        }),
{
}

/// Settings from which a [`VertexClient`] is built.
#[derive(Debug)]
pub struct VertexClientBuilder {
    pub project: Option<String>,
    pub location: Option<String>,
    pub endpoint: Option<VertexGrpcEndpoint>,
    pub credentials: Option<google_cloud_auth::credentials::Credentials>,
    pub api_key: Option<String>,
}

/// What a `VertexClientBuilder` stands for.
pub struct VertexClientBuilderView {
    pub project: Option<Seq<char>>,
    pub location: Option<Seq<char>>,
    pub endpoint: Option<VertexGrpcEndpointView>,
    pub credentials: Option<google_cloud_auth::credentials::Credentials>,
    pub api_key: Option<Seq<char>>,
}

impl View for VertexClientBuilder {
    type V = VertexClientBuilderView;

    open spec fn view(&self) -> VertexClientBuilderView {
        VertexClientBuilderView {
            project: model::opt_view(self.project),
            location: model::opt_view(self.location),
            endpoint: model::opt_view(self.endpoint),
            credentials: self.credentials,
            api_key: model::opt_view(self.api_key),
        }
    }
}

/// A builder that was given nothing.
pub open spec fn empty_builder() -> VertexClientBuilderView {
    VertexClientBuilderView {
        project: None,
        location: None,
        endpoint: None,
        credentials: None,
        api_key: None,
    }
}

impl Default for VertexClientBuilder {
    fn default() -> (r: VertexClientBuilder)
        ensures
            r@ == empty_builder(),
    {
        VertexClientBuilder {
            project: None,
            location: None,
            endpoint: None,
            credentials: None,
            api_key: None,
        }
    }
}

fn copy_text(text: &Option<String>) -> (r: Option<String>)
    ensures
        model::opt_view(r) == model::opt_view(*text),
{
    match text {
        Some(text) => Some(text.clone()),
        None => None,
    }
}

impl Clone for VertexClientBuilder {
    fn clone(&self) -> (r: VertexClientBuilder)
        ensures
            r@ == self@,
    {
        VertexClientBuilder {
            project: copy_text(&self.project),
            location: copy_text(&self.location),
            endpoint: match &self.endpoint {
                Some(endpoint) => Some(endpoint.clone()),
                None => None,
            },
            credentials: match &self.credentials {
                Some(credentials) => Some(share_credentials(credentials)),
                None => None,
            },
            api_key: copy_text(&self.api_key),
        }
    }
}

/// What a client is to be, once its channel is connected and its authentication is built.
pub struct VertexClientPlan {
    pub project: String,
    pub location: String,
    pub endpoint: VertexGrpcEndpoint,
    pub credentials: Option<google_cloud_auth::credentials::Credentials>,
    pub api_key: Option<String>,
}

/// What a `VertexClientPlan` stands for.
pub struct VertexClientPlanView {
    pub project: Seq<char>,
    pub location: Seq<char>,
    pub endpoint: VertexGrpcEndpointView,
    pub credentials: Option<google_cloud_auth::credentials::Credentials>,
    pub api_key: Option<Seq<char>>,
}

impl View for VertexClientPlan {
    type V = VertexClientPlanView;

    open spec fn view(&self) -> VertexClientPlanView {
        VertexClientPlanView {
            project: self.project@,
            location: self.location@,
            endpoint: self.endpoint@,
            credentials: self.credentials,
            api_key: model::opt_view(self.api_key),
        }
    }
}

/// The first of two optional values that is there.
pub open spec fn or_else<T>(first: Option<T>, second: Option<T>) -> Option<T> {
    match first {
        Some(_) => first,
        None => second,
    }
}

/// The location of a client: the given one, that of the environment, or else the default one.
pub open spec fn chosen_location(given: Option<Seq<char>>, env: Option<Seq<char>>) -> Seq<char> {
    match or_else(given, env) {
        Some(location) => location,
        None => DEFAULT_LOCATION@,
    }
}

/// The endpoint of a client: the given one, or else that of its location.
pub open spec fn chosen_endpoint(
    given: Option<VertexGrpcEndpointView>,
    location: Seq<char>,
) -> VertexGrpcEndpointView {
    match given {
        Some(endpoint) => endpoint,
        None => if location == DEFAULT_LOCATION@ {
            VertexGrpcEndpointView::Global
        } else {
            VertexGrpcEndpointView::Regional { region: location }
        },
    }
}

/// A plan, or why there is none.
pub type PlanResult = Result<VertexClientPlanView, VertexClientErrorView>;

/// What a builder plans, in an environment that may give a project and a location.
pub open spec fn planned(
    builder: VertexClientBuilderView,
    env_project: Option<Seq<char>>,
    env_location: Option<Seq<char>>,
) -> PlanResult {
    match or_else(builder.project, env_project) {
        None => PlanResult::Err(VertexClientErrorView::MissingProject),
        Some(project) => {
            let location = chosen_location(builder.location, env_location);
            PlanResult::Ok(
                VertexClientPlanView {
                    project,
                    location,
                    endpoint: chosen_endpoint(builder.endpoint, location),
                    credentials: builder.credentials,
                    api_key: builder.api_key,
                },
            )
        },
    }
}

/// What a builder was given wins over the environment: where it was given a project and a
/// location, the environment does not matter.
pub proof fn law_builder_wins_over_environment(
    builder: VertexClientBuilderView,
    env_project: Option<Seq<char>>,
    env_location: Option<Seq<char>>,
)
    requires
        builder.project is Some,
        builder.location is Some,
    ensures
        planned(builder, env_project, env_location) == planned(builder, None, None),
        planned(builder, env_project, env_location) is Ok,
{
}

/// Where nothing names a location, it is the global one, and the endpoint with it unless another
/// was given.
pub proof fn law_location_defaults_to_global(
    builder: VertexClientBuilderView,
    env_project: Option<Seq<char>>,
)
    requires
        builder.location is None,
        planned(builder, env_project, None) is Ok,
    ensures
        ({
            let plan = planned(builder, env_project, None)->Ok_0;
            &&& plan.location == DEFAULT_LOCATION@
            &&& builder.endpoint is None ==> plan.endpoint == VertexGrpcEndpointView::Global
        }),
{
}

/// Without an endpoint of its own, a client is connected securely to an endpoint of its own
/// location: the global one, or that of its region.
pub proof fn law_endpoint_follows_location(location: Seq<char>)
    ensures
        ({
            let settings = endpoint_settings(chosen_endpoint(None, location));
            &&& settings.url == (if location == DEFAULT_LOCATION@ {
                VERTEX_GLOBAL_GRPC_ENDPOINT@
            } else {
                regional_url(location)
            })
            &&& !(settings.tls is Off)
        }),
{
}

fn is_default_location(location: &str) -> (r: bool)
    ensures
        r == (location@ == DEFAULT_LOCATION@),
{
    let r = location.unicode_len() == DEFAULT_LOCATION.unicode_len() && text::has_prefix(
        location,
        DEFAULT_LOCATION,
    );
    assert(r ==> location@ =~= location@.subrange(0, DEFAULT_LOCATION@.len() as int));
    assert(location@ =~= location@.subrange(0, location@.len() as int));
    r
}

impl VertexClientBuilder {
    /// A builder that was given nothing.
    pub fn new() -> (r: VertexClientBuilder)
        ensures
            r@ == empty_builder(),
    {
        VertexClientBuilder::default()
    }

    /// Set the Google Cloud project ID explicitly.
    ///
    /// If not set, falls back to the project of the environment.
    pub fn with_project(self, project: &str) -> (r: VertexClientBuilder)
        ensures
            r@ == (VertexClientBuilderView { project: Some(project@), ..self@ }),
    {
        VertexClientBuilder { project: Some(project.to_string()), ..self }
    }

    /// Set the Google Cloud location explicitly.
    ///
    /// If not set, falls back to the location of the environment, or defaults to `"global"`.
    pub fn with_location(self, location: &str) -> (r: VertexClientBuilder)
        ensures
            r@ == (VertexClientBuilderView { location: Some(location@), ..self@ }),
    {
        VertexClientBuilder { location: Some(location.to_string()), ..self }
    }

    /// Override the gRPC endpoint.
    pub fn with_endpoint(self, endpoint: VertexGrpcEndpoint) -> (r: VertexClientBuilder)
        ensures
            r@ == (VertexClientBuilderView { endpoint: Some(endpoint@), ..self@ }),
    {
        VertexClientBuilder { endpoint: Some(endpoint), ..self }
    }

    /// Set credentials explicitly.
    ///
    /// If not set, uses the default credentials of the environment, with optional service
    /// account impersonation.
    pub fn with_credentials(
        self,
        credentials: google_cloud_auth::credentials::Credentials,
    ) -> (r: VertexClientBuilder)
        ensures
            r@ == (VertexClientBuilderView { credentials: Some(credentials), ..self@ }),
    {
        VertexClientBuilder { credentials: Some(credentials), ..self }
    }

    /// Set a Vertex AI API key explicitly.
    ///
    /// When set, the client authenticates using the `x-goog-api-key` header instead of OAuth
    /// credentials.
    pub fn with_api_key(self, api_key: &str) -> (r: VertexClientBuilder)
        ensures
            r@ == (VertexClientBuilderView { api_key: Some(api_key@), ..self@ }),
    {
        VertexClientBuilder { api_key: Some(api_key.to_string()), ..self }
    }

    /// What the client is to be, in an environment that may give a project and a location.
    pub fn build(self, env_project: Option<String>, env_location: Option<String>) -> (r: Result<
        VertexClientPlan,
        VertexClientError,
    >)
        ensures
            model::result_view(r) == planned(
                self@,
                model::opt_view(env_project),
                model::opt_view(env_location),
            ),
    {
        let project = match self.project {
            Some(project) => project,
            None => match env_project {
                Some(project) => project,
                None => {
                    return Err(VertexClientError::MissingProject);
                },
            },
        };
        let location = match self.location {
            Some(location) => location,
            None => match env_location {
                Some(location) => location,
                None => DEFAULT_LOCATION.to_string(),
            },
        };
        let endpoint = match self.endpoint {
            Some(endpoint) => endpoint,
            None => if is_default_location(location.as_str()) {
                VertexGrpcEndpoint::Global
            } else {
                VertexGrpcEndpoint::Regional { region: location.clone() }
            },
        };
        Ok(
            VertexClientPlan {
                project,
                location,
                endpoint,
                credentials: self.credentials,
                api_key: self.api_key,
            },
        )
    }
}

/// A client for Vertex AI, apart from its channel.
pub struct VertexClient {
    project: String,
    location: String,
    endpoint: VertexGrpcEndpoint,
    auth: VertexAuth,
}

/// What a `VertexClient` stands for.
pub struct VertexClientView {
    pub project: Seq<char>,
    pub location: Seq<char>,
    pub endpoint: VertexGrpcEndpointView,
    pub auth: VertexAuthView,
}

impl View for VertexClient {
    type V = VertexClientView;

    closed spec fn view(&self) -> VertexClientView {
        VertexClientView {
            project: self.project@,
            location: self.location@,
            endpoint: self.endpoint@,
            auth: self.auth@,
        }
    }
}

impl Clone for VertexClient {
    fn clone(&self) -> (r: VertexClient)
        ensures
            r@ == self@,
    {
        VertexClient {
            project: self.project.clone(),
            location: self.location.clone(),
            endpoint: self.endpoint.clone(),
            auth: self.auth.clone(),
        }
    }
}

/// Whether a model's name is already a path to it.
pub open spec fn is_model_path(model: Seq<char>) -> bool {
    ||| "projects/"@.is_prefix_of(model)
    ||| "publishers/"@.is_prefix_of(model)
    ||| "endpoints/"@.is_prefix_of(model)
}

/// The path to a model: its name where that is a path, or else the path to Google's model of
/// that name in a project and a location.
pub open spec fn model_path(
    project: Seq<char>,
    location: Seq<char>,
    model: Seq<char>,
) -> Seq<char> {
    if is_model_path(model) {
        model
    } else {
        "projects/"@ + project + "/locations/"@ + location + "/publishers/google/models/"@ + model
    }
}

/// The path to a model is a path, and stays what it is when it is resolved again, whatever the
/// project and the location.
pub proof fn law_model_path_is_stable(
    project: Seq<char>,
    location: Seq<char>,
    model: Seq<char>,
    other_project: Seq<char>,
    other_location: Seq<char>,
)
    ensures
        ({
            let path = model_path(project, location, model);
            &&& is_model_path(path)
            &&& model_path(other_project, other_location, path) == path
        }),
{
    let path = model_path(project, location, model);
    if !is_model_path(model) {
        assert("projects/"@ =~= path.subrange(0, "projects/"@.len() as int));
    }
}

/// Two models of one client that are named otherwise than by a path have the same path only
/// where they have the same name.
pub proof fn law_model_path_tells_models_apart(
    project: Seq<char>,
    location: Seq<char>,
    model: Seq<char>,
    other: Seq<char>,
)
    requires
        !is_model_path(model),
        !is_model_path(other),
        model_path(project, location, model) == model_path(project, location, other),
    ensures
        model == other,
{
    let prefix = "projects/"@ + project + "/locations/"@ + location
        + "/publishers/google/models/"@;
    assert(model =~= (prefix + model).skip(prefix.len() as int));
    assert(other =~= (prefix + other).skip(prefix.len() as int));
}

/// The metadata of a request after it was authenticated.
pub open spec fn authenticated(
    auth: VertexAuthView,
    entries: Entries,
    headers: Headers,
) -> Entries {
    match auth {
        VertexAuthView::ApiKey(key) => call_metadata::with_key_and_client(
            entries,
            key,
            RIG_VERTEX_GRPC_CLIENT_IDENTIFIER@,
        ),
        VertexAuthView::Credentials(_) => {
            let entries = call_metadata::with_headers(entries, headers);
            if call_metadata::headers_fault(headers) is Some {
                entries
            } else {
                call_metadata::with_entry(
                    entries,
                    API_CLIENT_HEADER@,
                    RIG_VERTEX_GRPC_CLIENT_IDENTIFIER@,
                )
            }
        },
    }
}

/// The outcome of authenticating a request.
pub type AuthOutcome = Result<(), VertexClientErrorView>;

/// The error for a header that cannot go into the metadata of a request.
pub open spec fn header_error(fault: HeaderError) -> VertexClientErrorView {
    match fault {
        HeaderError::InvalidKey => VertexClientErrorView::InvalidMetadataKey,
        HeaderError::InvalidText => VertexClientErrorView::HeaderValueToStr,
        HeaderError::InvalidValue => VertexClientErrorView::InvalidMetadataValue,
    }
}

/// The outcome of authenticating a request: only headers can be at fault.
pub open spec fn auth_outcome(auth: VertexAuthView, headers: Headers) -> AuthOutcome {
    match (auth, call_metadata::headers_fault(headers)) {
        (VertexAuthView::Credentials(_), Some(fault)) => AuthOutcome::Err(header_error(fault)),
        _ => AuthOutcome::Ok(()),
    }
}

/// How many keys a request may get when it is authenticated.
pub open spec fn auth_keys(auth: VertexAuthView, headers: Headers) -> nat {
    match auth {
        VertexAuthView::ApiKey(_) => 2,
        VertexAuthView::Credentials(_) => headers.len() + 1,
    }
}

impl VertexClient {
    /// A client with the given settings.
    pub fn new(
        project: String,
        location: String,
        endpoint: VertexGrpcEndpoint,
        auth: VertexAuth,
    ) -> (r: VertexClient)
        ensures
            r@ == (VertexClientView {
                project: project@,
                location: location@,
                endpoint: endpoint@,
                auth: auth@,
            }),
    {
        VertexClient { project, location, endpoint, auth }
    }

    /// A builder that was given nothing.
    pub fn builder() -> (r: VertexClientBuilder)
        ensures
            r@ == empty_builder(),
    {
        VertexClientBuilder::new()
    }

    /// The client's project.
    pub fn project(&self) -> (r: &str)
        ensures
            r@ == self@.project,
    {
        self.project.as_str()
    }

    /// The client's location.
    pub fn location(&self) -> (r: &str)
        ensures
            r@ == self@.location,
    {
        self.location.as_str()
    }

    /// The client's endpoint.
    pub fn endpoint(&self) -> (r: &VertexGrpcEndpoint)
        ensures
            r@ == self@.endpoint,
    {
        &self.endpoint
    }

    /// How the client proves who it is.
    pub fn auth(&self) -> (r: &VertexAuth)
        ensures
            r@ == self@.auth,
    {
        &self.auth
    }

    /// The path to a model.
    pub fn resolve_model_path(&self, model: &str) -> (r: String)
        ensures
            r@ == model_path(self@.project, self@.location, model@),
    {
        if text::has_prefix(model, "projects/") || text::has_prefix(model, "publishers/")
            || text::has_prefix(model, "endpoints/") {
            model.to_string()
        } else {
            let mut path = "projects/".to_string();
            path.append(self.project.as_str());
            path.append("/locations/");
            path.append(self.location.as_str());
            path.append("/publishers/google/models/");
            path.append(model);
            path
        }
    }

    /// Puts into the metadata of a request what proves who the client is: its API key, or else
    /// the OAuth headers that its credentials gave, and then its name. Stops at the first header
    /// that cannot go in.
    pub fn apply_auth(
        &self,
        metadata: &mut tonic::metadata::MetadataMap,
        oauth_headers: &http::HeaderMap<http::HeaderValue>,
    ) -> (r: Result<(), VertexClientError>)
        requires
            call_metadata::room_for(
                *old(metadata),
                auth_keys(self@.auth, call_metadata::header_entries(*oauth_headers)),
            ),
        ensures
            model::result_view(r) == auth_outcome(
                self@.auth,
                call_metadata::header_entries(*oauth_headers),
            ),
            call_metadata::metadata_entries(*final(metadata)) == authenticated(
                self@.auth,
                call_metadata::metadata_entries(*old(metadata)),
                call_metadata::header_entries(*oauth_headers),
            ),
    {
        proof {
            call_metadata::lemma_client_entries();
        }
        match &self.auth {
            VertexAuth::ApiKey { api_key } => {
                call_metadata::set_entry(metadata, API_KEY_HEADER, api_key);
            },
            VertexAuth::Credentials { credentials: _ } => {
                match call_metadata::set_headers(metadata, oauth_headers) {
                    Ok(_) => {},
                    Err(HeaderError::InvalidKey) => {
                        return Err(VertexClientError::InvalidMetadataKey);
                    },
                    Err(HeaderError::InvalidText) => {
                        return Err(VertexClientError::HeaderValueToStr);
                    },
                    Err(HeaderError::InvalidValue) => {
                        return Err(VertexClientError::InvalidMetadataValue);
                    },
                }
            },
        }
        match MetadataText::parse(RIG_VERTEX_GRPC_CLIENT_IDENTIFIER) {
            Some(identifier) => {
                call_metadata::set_entry(metadata, API_CLIENT_HEADER, &identifier);
                Ok(())
            },
            None => Err(VertexClientError::InvalidMetadataValue),
        }
    }

    /// Does what [`VertexClient::apply_auth`] does, provided that the metadata has room for it;
    /// otherwise leaves the metadata as it is and returns nothing.
    pub fn apply_auth_if_room(
        &self,
        metadata: &mut tonic::metadata::MetadataMap,
        oauth_headers: &http::HeaderMap<http::HeaderValue>,
    ) -> (r: Option<Result<(), VertexClientError>>)
        ensures
            r is Some <==> call_metadata::room_for(
                *old(metadata),
                auth_keys(self@.auth, call_metadata::header_entries(*oauth_headers)),
            ),
            r matches Some(outcome) ==> model::result_view(outcome) == auth_outcome(
                self@.auth,
                call_metadata::header_entries(*oauth_headers),
            ) && call_metadata::metadata_entries(*final(metadata)) == authenticated(
                self@.auth,
                call_metadata::metadata_entries(*old(metadata)),
                call_metadata::header_entries(*oauth_headers),
            ),
            r is None ==> *final(metadata) == *old(metadata),
    {
        let keys: usize = match &self.auth {
            VertexAuth::ApiKey { api_key: _ } => 1,
            VertexAuth::Credentials { credentials: _ } => call_metadata::count_headers(
                oauth_headers,
            ),
        };
        if keys == usize::MAX || !call_metadata::has_room_for(metadata, keys + 1) {
            return None;
        }
        Some(self.apply_auth(metadata, oauth_headers))
    }
}

/// An authenticated request names the client, and one that is authenticated by an API key
/// carries that key and no other.
pub proof fn law_authenticated_names_client(
    auth: VertexAuthView,
    entries: Entries,
    headers: Headers,
)
    requires
        auth_outcome(auth, headers) is Ok,
    ensures
        ({
            let after = authenticated(auth, entries, headers);
            &&& after.contains_key(API_CLIENT_HEADER@)
            &&& after[API_CLIENT_HEADER@] == seq![
                vstd::utf8::encode_utf8(RIG_VERTEX_GRPC_CLIENT_IDENTIFIER@),
            ]
            &&& auth matches VertexAuthView::ApiKey(key) ==> {
                &&& after.contains_key(API_KEY_HEADER@)
                &&& after[API_KEY_HEADER@] == seq![vstd::utf8::encode_utf8(key)]
            }
        }),
{
    reveal_strlit("x-goog-api-key");
    reveal_strlit("x-goog-api-client");
    assert(API_KEY_HEADER@.len() != API_CLIENT_HEADER@.len());
}

/// Authentication touches no metadata but what it is there to set: the API key and the name of
/// the client, or the keys of the headers and the name of the client.
pub proof fn law_authentication_leaves_the_rest(
    auth: VertexAuthView,
    entries: Entries,
    headers: Headers,
    key: Seq<char>,
)
    requires
        key != API_CLIENT_HEADER@,
        auth is ApiKey ==> key != API_KEY_HEADER@,
        auth is Credentials ==> forall|i: int|
            0 <= i < headers.len() ==> call_metadata::key_of((#[trigger] headers[i]).0) != Some(
                key,
            ),
    ensures
        ({
            let after = authenticated(auth, entries, headers);
            &&& after.contains_key(key) <==> entries.contains_key(key)
            &&& after[key] == entries[key]
        }),
{
    if auth is Credentials {
        call_metadata::lemma_headers_leave_the_rest(entries, headers, key);
    }
}

/// Authentication by an API key always succeeds. Afterwards the key and the name of the client
/// each stand there once, in place of what stood there; everything else is as it was, and no
/// header of the credentials is added.
pub proof fn law_api_key_authentication(
    api_key: Seq<char>,
    entries: Entries,
    headers: Headers,
    key: Seq<char>,
)
    ensures
        auth_outcome(VertexAuthView::ApiKey(api_key), headers) == AuthOutcome::Ok(()),
        ({
            let after = authenticated(VertexAuthView::ApiKey(api_key), entries, headers);
            &&& after == authenticated(VertexAuthView::ApiKey(api_key), entries, Seq::empty())
            &&& after.contains_key(API_KEY_HEADER@)
            &&& after[API_KEY_HEADER@] == seq![vstd::utf8::encode_utf8(api_key)]
            &&& after.contains_key(API_CLIENT_HEADER@)
            &&& after[API_CLIENT_HEADER@] == seq![
                vstd::utf8::encode_utf8(RIG_VERTEX_GRPC_CLIENT_IDENTIFIER@),
            ]
            &&& key != API_KEY_HEADER@ && key != API_CLIENT_HEADER@ ==> {
                &&& after.contains_key(key) <==> entries.contains_key(key)
                &&& after[key] == entries[key]
            }
        }),
{
    reveal_strlit("x-goog-api-key");
    reveal_strlit("x-goog-api-client");
    assert(API_KEY_HEADER@.len() != API_CLIENT_HEADER@.len());
}

/// Authentication is idempotent: a request that is authenticated twice in the same way carries
/// what it carries after the first time.
pub proof fn law_authenticating_twice_changes_nothing(
    auth: VertexAuthView,
    entries: Entries,
    headers: Headers,
)
    ensures
        authenticated(auth, authenticated(auth, entries, headers), headers) == authenticated(
            auth,
            entries,
            headers,
        ),
{
    let once = authenticated(auth, entries, headers);
    let twice = authenticated(auth, once, headers);
    assert forall|key: Seq<char>|
        #![trigger twice.contains_key(key)]
        #![trigger once.contains_key(key)]
        #![trigger twice[key]]
        (twice.contains_key(key) <==> once.contains_key(key)) && twice[key] == once[key] by {
        call_metadata::lemma_with_headers_at(entries, headers, key);
        call_metadata::lemma_with_headers_at(once, headers, key);
        reveal_strlit("x-goog-api-key");
        reveal_strlit("x-goog-api-client");
        assert(API_KEY_HEADER@.len() != API_CLIENT_HEADER@.len());
    }
    assert(twice =~= once);
}

} // verus!
