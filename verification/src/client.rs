//! The Google AI Studio client: where it sends requests, and the API key that it sends with them.
use crate::call_metadata;
use crate::call_metadata::{Entries, MetadataText, API_CLIENT_HEADER, API_KEY_HEADER};
use crate::endpoint;
use crate::endpoint::{ChannelSettings, ChannelSettingsView, TlsView};
use vstd::prelude::*;

verus! {

/// The URL of Google AI Studio.
pub const GOOGLE_STUDIO_GRPC_ENDPOINT: &'static str = "https://generativelanguage.googleapis.com";

/// The domain of Google AI Studio.
pub const GOOGLE_STUDIO_GRPC_TLS_DOMAIN: &'static str = "generativelanguage.googleapis.com";

/// How the client names itself to the service.
pub const RIG_GRPC_CLIENT_IDENTIFIER: &'static str = "rig-grpc/0.1.0";

/// Endpoint routing for Gemini gRPC requests.
///
/// For Vertex AI (`aiplatform.googleapis.com`), there is
/// [`crate::vertex::client::VertexClient`].
#[derive(Debug, PartialEq, Eq)]
pub enum GeminiGrpcEndpoint {
    /// Google AI Studio Gemini endpoint.
    GoogleStudio,
    /// Custom endpoint override, for example an internal gateway/proxy URL.
    Custom { url: String },
}

/// What a `GeminiGrpcEndpoint` stands for.
pub enum GeminiGrpcEndpointView {
    GoogleStudio,
    Custom { url: Seq<char> },
}

impl View for GeminiGrpcEndpoint {
    type V = GeminiGrpcEndpointView;

    open spec fn view(&self) -> GeminiGrpcEndpointView {
        match self {
            GeminiGrpcEndpoint::GoogleStudio => GeminiGrpcEndpointView::GoogleStudio,
            GeminiGrpcEndpoint::Custom { url } => GeminiGrpcEndpointView::Custom { url: url@ },
        }
    }
}

impl Default for GeminiGrpcEndpoint {
    fn default() -> (r: GeminiGrpcEndpoint)
        ensures
            r@ == GeminiGrpcEndpointView::GoogleStudio,
    {
        GeminiGrpcEndpoint::GoogleStudio
    }
}

impl Clone for GeminiGrpcEndpoint {
    fn clone(&self) -> (r: GeminiGrpcEndpoint)
        ensures
            r@ == self@,
    {
        match self {
            GeminiGrpcEndpoint::GoogleStudio => GeminiGrpcEndpoint::GoogleStudio,
            GeminiGrpcEndpoint::Custom { url } => GeminiGrpcEndpoint::Custom { url: url.clone() },
        }
    }
}

/// How the channel to an endpoint is set up.
pub open spec fn endpoint_settings(endpoint: GeminiGrpcEndpointView) -> ChannelSettingsView {
    match endpoint {
        GeminiGrpcEndpointView::GoogleStudio => ChannelSettingsView {
            url: GOOGLE_STUDIO_GRPC_ENDPOINT@,
            tls: TlsView::Domain(GOOGLE_STUDIO_GRPC_TLS_DOMAIN@),
        },
        GeminiGrpcEndpointView::Custom { url } => endpoint::custom_settings(url),
    }
}

/// The client's API key cannot be a metadata value.
#[derive(Clone, Copy, Debug, PartialEq, Eq, Structural)]
pub struct InvalidApiKey;

impl InvalidApiKey {
    /// The text of the error.
    pub fn message(&self) -> (r: String)
        ensures
            r@ == "failed to parse metadata value"@,
    {
        "failed to parse metadata value".to_string()
    }
}

/// A client for Google AI Studio, with the settings of its channel.
pub struct Client {
    api_key: String,
    channel: ChannelSettings,
}

/// What a `Client` stands for.
pub struct ClientView {
    pub api_key: Seq<char>,
    pub channel: ChannelSettingsView,
}

impl View for Client {
    type V = ClientView;

    closed spec fn view(&self) -> ClientView {
        ClientView { api_key: self.api_key@, channel: self.channel@ }
    }
}

impl Clone for Client {
    fn clone(&self) -> (r: Client)
        ensures
            r@ == self@,
    {
        Client { api_key: self.api_key.clone(), channel: self.channel.clone() }
    }
}

impl Client {
    /// A client for Google AI Studio with the given API key.
    pub fn new(api_key: String) -> (r: Client)
        ensures
            r@ == (ClientView {
                api_key: api_key@,
                channel: endpoint_settings(GeminiGrpcEndpointView::GoogleStudio),
            }),
    {
        Client::new_with_endpoint(api_key, GeminiGrpcEndpoint::GoogleStudio)
    }

    /// A client with the given API key and endpoint.
    pub fn new_with_endpoint(api_key: String, endpoint: GeminiGrpcEndpoint) -> (r: Client)
        ensures
            r@ == (ClientView { api_key: api_key@, channel: endpoint_settings(endpoint@) }),
    {
        let channel = match endpoint {
            GeminiGrpcEndpoint::GoogleStudio => ChannelSettings::fixed(
                GOOGLE_STUDIO_GRPC_ENDPOINT,
                GOOGLE_STUDIO_GRPC_TLS_DOMAIN,
            ),
            GeminiGrpcEndpoint::Custom { url } => ChannelSettings::custom(url.as_str()),
        };
        Client { api_key, channel }
    }

    /// The settings of the client's channel.
    pub fn channel(&self) -> (r: &ChannelSettings)
        ensures
            r@ == self@.channel,
    {
        &self.channel
    }

    /// What puts the client's API key and name into its requests. The key has to be a metadata
    /// value.
    pub fn interceptor(&self) -> (r: Result<ApiKeyInterceptor, InvalidApiKey>)
        ensures
            r is Ok <==> call_metadata::is_value_text(self@.api_key),
            r matches Ok(interceptor) ==> interceptor@ == (ApiKeyInterceptorView {
                api_key: self@.api_key,
                client_id: RIG_GRPC_CLIENT_IDENTIFIER@,
            }),
    {
        proof {
            call_metadata::lemma_client_entries();
        }
        match (
            MetadataText::parse(self.api_key.as_str()),
            MetadataText::parse(RIG_GRPC_CLIENT_IDENTIFIER),
        ) {
            (Some(api_key), Some(client_id)) => Ok(ApiKeyInterceptor { api_key, client_id }),
            _ => Err(InvalidApiKey),
        }
    }
}

/// Puts an API key and client identification into the metadata of requests.
pub struct ApiKeyInterceptor {
    api_key: MetadataText,
    client_id: MetadataText,
}

/// What an `ApiKeyInterceptor` stands for.
pub struct ApiKeyInterceptorView {
    pub api_key: Seq<char>,
    pub client_id: Seq<char>,
}

impl View for ApiKeyInterceptor {
    type V = ApiKeyInterceptorView;

    closed spec fn view(&self) -> ApiKeyInterceptorView {
        ApiKeyInterceptorView { api_key: self.api_key@, client_id: self.client_id@ }
    }
}

impl Clone for ApiKeyInterceptor {
    fn clone(&self) -> (r: ApiKeyInterceptor)
        ensures
            r@ == self@,
    {
        ApiKeyInterceptor { api_key: self.api_key.clone(), client_id: self.client_id.clone() }
    }
}

/// The metadata of a request after an interceptor has seen it.
pub open spec fn intercepted(interceptor: ApiKeyInterceptorView, entries: Entries) -> Entries {
    call_metadata::with_key_and_client(entries, interceptor.api_key, interceptor.client_id)
}

impl ApiKeyInterceptor {
    /// Puts the API key and the client identification into the metadata of a request.
    pub fn call(&self, metadata: &mut tonic::metadata::MetadataMap)
        requires
            call_metadata::room_for(*old(metadata), 2),
        ensures
            call_metadata::metadata_entries(*final(metadata)) == intercepted(
                self@,
                call_metadata::metadata_entries(*old(metadata)),
            ),
    {
        proof {
            call_metadata::lemma_client_entries();
        }
        call_metadata::set_entry(metadata, API_KEY_HEADER, &self.api_key);
        call_metadata::set_entry(metadata, API_CLIENT_HEADER, &self.client_id);
    }

    /// Does what [`ApiKeyInterceptor::call`] does, provided that the metadata has room for it;
    /// otherwise leaves the metadata as it is. Returns whether there was room.
    pub fn call_if_room(&self, metadata: &mut tonic::metadata::MetadataMap) -> (r: bool)
        ensures
            r == call_metadata::room_for(*old(metadata), 2),
            r ==> call_metadata::metadata_entries(*final(metadata)) == intercepted(
                self@,
                call_metadata::metadata_entries(*old(metadata)),
            ),
            !r ==> *final(metadata) == *old(metadata),
    {
        if call_metadata::has_room_for(metadata, 2) {
            self.call(metadata);
            true
        } else {
            false
        }
    }
}

/// An interceptor is idempotent: a request that it sees twice carries what it carries after the
/// first time.
pub proof fn law_intercepting_twice_changes_nothing(
    interceptor: ApiKeyInterceptorView,
    entries: Entries,
)
    ensures
        intercepted(interceptor, intercepted(interceptor, entries)) == intercepted(
            interceptor,
            entries,
        ),
{
    let once = intercepted(interceptor, entries);
    reveal_strlit("x-goog-api-key");
    reveal_strlit("x-goog-api-client");
    assert(API_KEY_HEADER@.len() != API_CLIENT_HEADER@.len());
    assert(intercepted(interceptor, once) =~= once);
}

/// An intercepted request carries the key and the name of the client, and all that it carried
/// under other keys.
pub proof fn law_intercepted_carries_key(
    interceptor: ApiKeyInterceptorView,
    entries: Entries,
    key: Seq<char>,
)
    ensures
        ({
            let after = intercepted(interceptor, entries);
            &&& after.contains_key(API_KEY_HEADER@)
            &&& after[API_KEY_HEADER@] == seq![vstd::utf8::encode_utf8(interceptor.api_key)]
            &&& after.contains_key(API_CLIENT_HEADER@)
            &&& after[API_CLIENT_HEADER@] == seq![vstd::utf8::encode_utf8(interceptor.client_id)]
            &&& key != API_KEY_HEADER@ && key != API_CLIENT_HEADER@ ==> {
                &&& after.contains_key(key) <==> entries.contains_key(key)
                &&& after[key] == entries[key]
            }
        }),
{
    reveal_strlit("x-goog-api-key");
    reveal_strlit("x-goog-api-client");
    assert(API_KEY_HEADER@.len() != API_CLIENT_HEADER@.len());
}

} // verus!
