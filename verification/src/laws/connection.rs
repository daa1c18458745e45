//! Laws of clients: endpoints, authentication and the metadata of requests.
use crate::call_metadata;
use crate::call_metadata::{Entries, HeaderError, Headers, API_CLIENT_HEADER};
use crate::client;
use crate::client::GeminiGrpcEndpointView;
use crate::endpoint;
use crate::endpoint::TlsView;
use crate::text;
use crate::vertex;
use crate::vertex::client::{
    AuthHeaderCacheView, AuthHeadersResult, AuthOutcome, AuthResult,
    AuthSourceView, HeadersResult, PlanResult, VertexAuthView, VertexClientBuilderView,
    VertexClientErrorView, VertexGrpcEndpointView, RIG_VERTEX_GRPC_CLIENT_IDENTIFIER,
};
use vstd::prelude::*;

verus! {

/// Each gap of a builder is filled from the environment on its own: the project whatever the
/// location, and the location whatever the project. What the builder was given stays.
pub proof fn law_gaps_are_filled_from_the_environment(
    builder: VertexClientBuilderView,
    env_project: Option<Seq<char>>,
    env_location: Option<Seq<char>>,
)
    ensures
        ({
            let planned = vertex::client::planned(builder, env_project, env_location);
            let plan = planned->Ok_0;
            &&& planned is Ok <==> builder.project is Some || env_project is Some
            &&& planned is Err ==> planned == PlanResult::Err(VertexClientErrorView::MissingProject)
            &&& builder.project is Some ==> plan.project == builder.project->0
            &&& builder.project is None && env_project is Some ==> plan.project == env_project->0
            &&& planned is Ok && builder.location is Some ==> plan.location == builder.location->0
            &&& planned is Ok && builder.location is None && env_location is Some ==> plan.location
                == env_location->0
            &&& planned is Ok && builder.location is None && env_location is None ==> plan.location
                == "global"@
            &&& planned is Ok ==> plan.credentials == builder.credentials && plan.api_key
                == builder.api_key
        }),
{
}

/// The endpoint of a plan is the one that the builder was given. Where it was given none, it is
/// the global one for the global location, and otherwise that of the region of the location.
pub proof fn law_endpoint_of_a_plan(
    builder: VertexClientBuilderView,
    env_project: Option<Seq<char>>,
    env_location: Option<Seq<char>>,
)
    requires
        vertex::client::planned(builder, env_project, env_location) is Ok,
    ensures
        ({
            let plan = vertex::client::planned(builder, env_project, env_location)->Ok_0;
            &&& builder.endpoint is Some ==> plan.endpoint == builder.endpoint->0
            &&& builder.endpoint is None ==> (plan.endpoint is Global <==> plan.location
                == "global"@)
            &&& builder.endpoint is None && plan.location != "global"@ ==> plan.endpoint
                == (VertexGrpcEndpointView::Regional { region: plan.location })
        }),
{
}

/// Where the environment of one of two builds has a project or a location that the builder was
/// given already, the two plans are the same.
pub proof fn law_environment_matters_only_for_gaps(
    builder: VertexClientBuilderView,
    env_project: Option<Seq<char>>,
    env_location: Option<Seq<char>>,
    other_project: Option<Seq<char>>,
    other_location: Option<Seq<char>>,
)
    requires
        builder.project is Some || env_project == other_project,
        builder.location is Some || env_location == other_location,
    ensures
        vertex::client::planned(builder, env_project, env_location) == vertex::client::planned(
            builder,
            other_project,
            other_location,
        ),
{
}

/// Channels to Vertex AI: the global endpoint for its own domain, a regional one for the host of
/// its region, and a custom URL as it is, secured exactly where it says so.
pub proof fn law_vertex_channels(endpoint: VertexGrpcEndpointView)
    ensures
        ({
            let settings = vertex::client::endpoint_settings(endpoint);
            &&& endpoint is Global ==> settings.url == "https://aiplatform.googleapis.com"@
                && settings.tls == TlsView::Domain("aiplatform.googleapis.com"@)
            &&& endpoint is Regional ==> settings.url == "https://"@ + endpoint->region
                + "-aiplatform.googleapis.com"@ && settings.tls is WebRoots
            &&& endpoint is Custom ==> settings.url == endpoint->url
            &&& endpoint is Custom ==> (settings.tls is WebRoots <==> "https://"@.is_prefix_of(
                endpoint->url,
            ))
            &&& endpoint is Custom ==> (settings.tls is Off <==> !"https://"@.is_prefix_of(
                endpoint->url,
            ))
        }),
{
}

/// Channels to Google AI Studio: its own endpoint for its own domain, and a custom URL as it is,
/// secured exactly where it says so.
pub proof fn law_studio_channels(endpoint: GeminiGrpcEndpointView)
    ensures
        ({
            let settings = client::endpoint_settings(endpoint);
            &&& endpoint is GoogleStudio ==> settings.url
                == "https://generativelanguage.googleapis.com"@ && settings.tls == TlsView::Domain(
                "generativelanguage.googleapis.com"@,
            )
            &&& endpoint is Custom ==> settings.url == endpoint->url
            &&& endpoint is Custom ==> (settings.tls is WebRoots <==> "https://"@.is_prefix_of(
                endpoint->url,
            ))
            &&& endpoint is Custom ==> (settings.tls is Off <==> !"https://"@.is_prefix_of(
                endpoint->url,
            ))
        }),
{
}

/// A URL that was given by hand is used as it is, secured exactly where it starts with `https://`.
pub proof fn law_custom_channels(url: Seq<char>)
    ensures
        endpoint::custom_settings(url).url == url,
        endpoint::custom_settings(url).tls is WebRoots <==> "https://"@.is_prefix_of(url),
        endpoint::custom_settings(url).tls is Off <==> !"https://"@.is_prefix_of(url),
{
}

/// The path to a model is its name where that is a path, and otherwise names the project, the
/// location and the model.
pub proof fn law_model_path(project: Seq<char>, location: Seq<char>, model: Seq<char>)
    ensures
        ({
            let path = vertex::client::model_path(project, location, model);
            let named_by_path = "projects/"@.is_prefix_of(model) || "publishers/"@.is_prefix_of(
                model,
            ) || "endpoints/"@.is_prefix_of(model);
            &&& named_by_path ==> path == model
            &&& !named_by_path ==> path == "projects/"@ + project + "/locations/"@ + location
                + "/publishers/google/models/"@ + model
            &&& vertex::client::is_model_path(model) <==> named_by_path
        }),
{
}

/// An API key that is given authenticates, without the white space around it, unless it is empty
/// or cannot be a metadata value, or there are credentials too.
pub proof fn law_given_key_authenticates(
    api_key: Seq<char>,
    credentials: Option<google_cloud_auth::credentials::Credentials>,
    env_api_key: Option<Seq<char>>,
)
    ensures
        ({
            let key = text::trimmed(api_key);
            let auth = vertex::client::chosen_auth(Some(api_key), credentials, env_api_key);
            &&& key.len() == 0 ==> auth == AuthResult::Err(VertexClientErrorView::EmptyApiKey)
            &&& key.len() > 0 && credentials is Some ==> auth == AuthResult::Err(
                VertexClientErrorView::ConflictingAuth,
            )
            &&& key.len() > 0 && credentials is None && !call_metadata::is_value_text(key) ==> auth
                == AuthResult::Err(VertexClientErrorView::InvalidMetadataValue)
            &&& key.len() > 0 && credentials is None && call_metadata::is_value_text(key) ==> auth
                == AuthResult::Ok(AuthSourceView::Known(VertexAuthView::ApiKey(key)))
        }),
{
}

/// Without an API key, credentials that are given authenticate. Without these, an API key of the
/// environment does so as one that is given would, and without that the default credentials do.
pub proof fn law_what_authenticates_without_a_given_key(
    credentials: Option<google_cloud_auth::credentials::Credentials>,
    env_api_key: Option<Seq<char>>,
)
    ensures
        ({
            let auth = vertex::client::chosen_auth(None, credentials, env_api_key);
            &&& credentials is Some ==> auth == AuthResult::Ok(
                AuthSourceView::Known(VertexAuthView::Credentials(credentials->0)),
            )
            &&& credentials is None && env_api_key is Some ==> auth == vertex::client::chosen_auth(
                env_api_key,
                None,
                None,
            )
            &&& credentials is None && env_api_key is None ==> auth == AuthResult::Ok(
                AuthSourceView::DefaultCredentials,
            )
        }),
{
}

/// White space around an API key does not matter.
pub proof fn law_white_space_around_a_key_does_not_matter(
    before: Seq<char>,
    api_key: Seq<char>,
    after: Seq<char>,
    credentials: Option<google_cloud_auth::credentials::Credentials>,
    env_api_key: Option<Seq<char>>,
)
    requires
        text::is_blank(before),
        text::is_blank(after),
    ensures
        vertex::client::chosen_auth(Some(before + api_key + after), credentials, env_api_key)
            == vertex::client::chosen_auth(Some(api_key), credentials, env_api_key),
        vertex::client::chosen_auth(None, None, Some(before + api_key + after))
            == vertex::client::chosen_auth(None, None, Some(api_key)),
{
    text::lemma_trimmed_of_surrounded(before, api_key, after);
}

/// New headers are used and cached, under their tag. Headers that have not changed are those that
/// were cached when the credentials were asked, and change no cache. An error changes none either.
pub proof fn law_headers_of_a_request(
    cache: AuthHeaderCacheView,
    asked: AuthHeaderCacheView,
    answer: AuthHeadersResult,
)
    ensures
        ({
            let headers = vertex::client::request_headers(asked, answer);
            let after = vertex::client::cached_after(cache, answer);
            &&& answer is Err ==> headers == HeadersResult::Err(
                VertexClientErrorView::AuthHeaders(answer->Err_0),
            ) && after == cache
            &&& answer is Ok && answer->Ok_0 is NotModified ==> after == cache
            &&& answer is Ok && answer->Ok_0 is NotModified && asked.headers is Some ==> headers
                == HeadersResult::Ok(asked.headers->0)
            &&& answer is Ok && answer->Ok_0 is NotModified && asked.headers is None ==> headers
                == HeadersResult::Err(VertexClientErrorView::MissingCachedAuthHeaders)
            &&& answer is Ok && answer->Ok_0 is New ==> headers == HeadersResult::Ok(
                answer->Ok_0->data,
            ) && after.headers == Some(answer->Ok_0->data) && after.entity_tag == Some(
                answer->Ok_0->entity_tag,
            )
        }),
{
}

/// A header can go into the metadata exactly where its name is a key and its value is text that
/// can be a metadata value; its name is looked at first.
pub proof fn law_headers_that_can_go_in(header: (Seq<char>, Option<Seq<char>>))
    ensures
        ({
            let fault = call_metadata::header_fault(header);
            &&& fault is None <==> call_metadata::key_of(header.0) is Some && header.1 is Some
                && call_metadata::is_value_text(header.1->0)
            &&& call_metadata::key_of(header.0) is None ==> fault == Some(HeaderError::InvalidKey)
            &&& call_metadata::key_of(header.0) is Some && header.1 is None ==> fault == Some(
                HeaderError::InvalidText,
            )
            &&& call_metadata::key_of(header.0) is Some && header.1 is Some
                && !call_metadata::is_value_text(header.1->0) ==> fault == Some(
                HeaderError::InvalidValue,
            )
        }),
{
}

/// The fault of headers is that of the first one that cannot go in.
pub proof fn law_first_bad_header_is_reported(headers: Headers, k: int)
    ensures
        (forall|i: int|
            0 <= i < headers.len() ==> call_metadata::header_fault(#[trigger] headers[i]) is None)
            ==> call_metadata::headers_fault(headers) is None,
        0 <= k < headers.len() && call_metadata::header_fault(headers[k]) is Some && (forall|i: int|
            0 <= i < k ==> call_metadata::header_fault(#[trigger] headers[i]) is None)
            ==> call_metadata::headers_fault(headers) == call_metadata::header_fault(headers[k]),
    decreases headers.len(),
{
    if headers.len() > 0 {
        let rest = headers.drop_last();
        law_first_bad_header_is_reported(rest, k);
        assert(forall|i: int| 0 <= i < rest.len() ==> rest[i] == headers[i]);
        assert(headers.last() == headers[headers.len() - 1]);
        if forall|i: int|
            0 <= i < headers.len() ==> call_metadata::header_fault(
                #[trigger] headers[i],
            ) is None {
            assert forall|i: int| 0 <= i < rest.len() implies call_metadata::header_fault(
                #[trigger] rest[i],
            ) is None by {
                assert(rest[i] == headers[i]);
            }
        }
        if 0 <= k < headers.len() && call_metadata::header_fault(headers[k]) is Some && (forall|
            i: int,
        |
            0 <= i < k ==> call_metadata::header_fault(#[trigger] headers[i]) is None) {
            assert forall|i: int| 0 <= i < k && i < rest.len() implies call_metadata::header_fault(
                #[trigger] rest[i],
            ) is None by {
                assert(rest[i] == headers[i]);
            }
        }
    }
}

/// Headers that can all go in are all there afterwards: under the key of each stands its value
/// and no other, that of the last one where several have the same key.
pub proof fn law_headers_go_in(entries: Entries, headers: Headers, k: int)
    requires
        0 <= k < headers.len(),
        forall|i: int|
            0 <= i < headers.len() ==> call_metadata::header_fault(#[trigger] headers[i]) is None,
        forall|i: int|
            k < i < headers.len() ==> call_metadata::key_of((#[trigger] headers[i]).0)
                != call_metadata::key_of(headers[k].0),
    ensures
        ({
            let after = call_metadata::with_headers(entries, headers);
            let key = call_metadata::key_of(headers[k].0)->0;
            &&& after.contains_key(key)
            &&& after[key] == seq![vstd::utf8::encode_utf8(headers[k].1->0)]
        }),
    decreases headers.len(),
{
    law_first_bad_header_is_reported(headers, 0);
    let rest = headers.drop_last();
    assert(headers.last() == headers[headers.len() - 1]);
    if k < rest.len() {
        assert forall|i: int| 0 <= i < rest.len() implies call_metadata::header_fault(
            #[trigger] rest[i],
        ) is None by {
            assert(rest[i] == headers[i]);
        }
        assert forall|i: int| k < i < rest.len() implies call_metadata::key_of(
            (#[trigger] rest[i]).0,
        ) != call_metadata::key_of(rest[k].0) by {
            assert(rest[i] == headers[i]);
        }
        law_headers_go_in(entries, rest, k);
        assert(call_metadata::header_fault(headers[k]) is None);
        assert(call_metadata::header_fault(headers[headers.len() - 1]) is None);
        assert(rest[k] == headers[k]);
    }
}

/// An entry that is put into metadata is the only one under its key, and changes no other.
pub proof fn law_entry_goes_in(
    entries: Entries,
    key: Seq<char>,
    text: Seq<char>,
    other: Seq<char>,
)
    ensures
        ({
            let after = call_metadata::with_entry(entries, key, text);
            &&& after.contains_key(key)
            &&& after[key] == seq![vstd::utf8::encode_utf8(text)]
            &&& other != key ==> after[other] == entries[other] && (after.contains_key(other)
                <==> entries.contains_key(other))
        }),
{
}

/// The headers that the credentials gave stand in the metadata of an authenticated request, but
/// for the name of the client, which is the library's.
pub proof fn law_oauth_headers_are_sent(
    credentials: google_cloud_auth::credentials::Credentials,
    entries: Entries,
    headers: Headers,
    k: int,
)
    requires
        0 <= k < headers.len(),
        forall|i: int|
            0 <= i < headers.len() ==> call_metadata::header_fault(#[trigger] headers[i]) is None,
        forall|i: int|
            k < i < headers.len() ==> call_metadata::key_of((#[trigger] headers[i]).0)
                != call_metadata::key_of(headers[k].0),
        call_metadata::key_of(headers[k].0) != Some(API_CLIENT_HEADER@),
    ensures
        ({
            let auth = VertexAuthView::Credentials(credentials);
            let after = vertex::client::authenticated(auth, entries, headers);
            let key = call_metadata::key_of(headers[k].0)->0;
            &&& vertex::client::auth_outcome(auth, headers) == AuthOutcome::Ok(())
            &&& after.contains_key(key)
            &&& after[key] == seq![vstd::utf8::encode_utf8(headers[k].1->0)]
            &&& after.contains_key(API_CLIENT_HEADER@)
            &&& after[API_CLIENT_HEADER@] == seq![vstd::utf8::encode_utf8("rig-grpc/0.1.0"@)]
        }),
{
    law_first_bad_header_is_reported(headers, 0);
    law_headers_go_in(entries, headers, k);
    assert(call_metadata::header_fault(headers[k]) is None);
}

/// Authentication by credentials fails exactly where a header cannot go in, and says why; the
/// request is then left without the name of the client, unless it had one.
pub proof fn law_bad_header_fails_authentication(
    credentials: google_cloud_auth::credentials::Credentials,
    entries: Entries,
    headers: Headers,
)
    ensures
        ({
            let auth = VertexAuthView::Credentials(credentials);
            let outcome = vertex::client::auth_outcome(auth, headers);
            let fault = call_metadata::headers_fault(headers);
            &&& outcome is Ok <==> fault is None
            &&& fault == Some(HeaderError::InvalidKey) ==> outcome == AuthOutcome::Err(
                VertexClientErrorView::InvalidMetadataKey,
            )
            &&& fault == Some(HeaderError::InvalidText) ==> outcome == AuthOutcome::Err(
                VertexClientErrorView::HeaderValueToStr,
            )
            &&& fault == Some(HeaderError::InvalidValue) ==> outcome == AuthOutcome::Err(
                VertexClientErrorView::InvalidMetadataValue,
            )
            &&& fault is Some ==> vertex::client::authenticated(auth, entries, headers)
                == call_metadata::with_headers(entries, headers)
        }),
{
}

/// How many keys authentication may add: two for an API key and the name of the client, or one
/// for each header and the name of the client.
pub proof fn law_keys_of_authentication(auth: VertexAuthView, headers: Headers)
    ensures
        auth is ApiKey ==> vertex::client::auth_keys(auth, headers) == 2,
        auth is Credentials ==> vertex::client::auth_keys(auth, headers) == headers.len() + 1,
{
}

/// The text of an error that comes from another one ends with the text of that one.
pub proof fn law_error_texts(e: Seq<char>)
    ensures
        vertex::client::error_text(VertexClientErrorView::Transport(e)) == "gRPC transport error: "@
            + e,
        vertex::client::error_text(VertexClientErrorView::Credentials(e))
            == "failed to build Google Cloud credentials: "@ + e,
        vertex::client::error_text(VertexClientErrorView::Impersonation(e))
            == "failed to build impersonated credentials: "@ + e,
        vertex::client::error_text(VertexClientErrorView::AuthHeaders(e))
            == "failed to fetch auth headers: "@ + e,
{
}

/// The client names itself to both services in the same way.
pub proof fn law_client_names()
    ensures
        RIG_VERTEX_GRPC_CLIENT_IDENTIFIER@ == "rig-grpc/0.1.0"@,
        client::RIG_GRPC_CLIENT_IDENTIFIER@ == "rig-grpc/0.1.0"@,
        call_metadata::API_KEY_HEADER@ == "x-goog-api-key"@,
        call_metadata::API_CLIENT_HEADER@ == "x-goog-api-client"@,
{
}

/// A builder that was given nothing has nothing.
pub proof fn law_empty_builder_is_empty()
    ensures
        vertex::client::empty_builder().project is None,
        vertex::client::empty_builder().location is None,
        vertex::client::empty_builder().endpoint is None,
        vertex::client::empty_builder().credentials is None,
        vertex::client::empty_builder().api_key is None,
{
}

/// There is room for more keys exactly where there are then no more than metadata always has room
/// for.
pub proof fn law_room_for_keys(metadata: tonic::metadata::MetadataMap, keys: nat)
    ensures
        call_metadata::room_for(metadata, keys) <==> call_metadata::metadata_entries(
            metadata,
        ).dom().finite() && call_metadata::metadata_entries(metadata).dom().len() + keys <= 6554,
{
}

} // verus!
