//! Completion requests as Vertex AI messages, and Vertex AI responses as completions.
use crate::encoding;
use crate::encoding::Variant;
use crate::error::{CompletionError, CompletionErrorView};
use crate::json;
use crate::json::{Json, JsonView};
use crate::message;
use crate::message::{
    AssistantContent, AssistantContentView, CompletionRequest, CompletionRequestView,
    CompletionResponse, DocumentSourceKind, Image, ImageDetail, ImageMediaType, ImageView, Message,
    MessageView, OneOrMany, Reasoning, ReasoningContentView, ReasoningView, SourceView, Text,
    ToolCall, ToolCallView, ToolChoice, ToolChoiceView, ToolDefinition, ToolDefinitionView,
    ToolFunction, ToolResultContent, ToolResultContentView, ToolResultView,
    Usage, UserContent, UserContentView,
};
use crate::model;
use crate::proto;
use crate::proto::{
    Blob, BlobView, Candidate, Content, ContentView, Data, DataView, FileData, FileDataView,
    FunctionCall, FunctionCallView, FunctionCallingConfig, FunctionCallingConfigView,
    FunctionDeclaration, FunctionDeclarationView, FunctionResponse, FunctionResponseView,
    GenerateContentRequest, GenerateContentRequestView, GenerateContentResponse,
    GenerateContentResponseView, GenerationConfig, GenerationConfigView, Part, PartView, Tool,
    ToolConfig, UsageMetadata, ValueView,
};
use crate::text;
use crate::vertex::client;
use crate::vertex::client::{VertexClient, VertexClientView};
use crate::vertex::value;
use vstd::prelude::*;

verus! {

/// A part, or the error that is reported in its place.
pub type PartResult = Result<PartView, CompletionErrorView>;

/// The parts of a message, or the error that is reported in their place.
pub type PartsResult = Result<Seq<PartView>, CompletionErrorView>;

/// A message, or the error that is reported in its place.
pub type ContentResult = Result<ContentView, CompletionErrorView>;

/// How a choice of tools is put to the model.
pub open spec fn calling_config(choice: ToolChoiceView) -> FunctionCallingConfigView {
    match choice {
        ToolChoiceView::Auto => FunctionCallingConfigView {
            mode: proto::MODE_AUTO,
            allowed_function_names: Seq::empty(),
        },
        ToolChoiceView::Required => FunctionCallingConfigView {
            mode: proto::MODE_ANY,
            allowed_function_names: Seq::empty(),
        },
        ToolChoiceView::Never => FunctionCallingConfigView {
            mode: proto::MODE_NONE,
            allowed_function_names: Seq::empty(),
        },
        ToolChoiceView::Specific(names) => FunctionCallingConfigView {
            mode: proto::MODE_ANY,
            allowed_function_names: names,
        },
    }
}

/// How a choice of tools is put to the model.
pub fn tool_choice_to_vertex(choice: ToolChoice) -> (r: FunctionCallingConfig)
    ensures
        r@ == calling_config(choice@),
{
    let (mode, names): (i32, Vec<String>) = match choice {
        ToolChoice::Auto => (proto::MODE_AUTO, Vec::new()),
        ToolChoice::Required => (proto::MODE_ANY, Vec::new()),
        ToolChoice::Never => (proto::MODE_NONE, Vec::new()),
        ToolChoice::Specific { function_names } => (proto::MODE_ANY, function_names),
    };
    let r = FunctionCallingConfig { mode, allowed_function_names: names };
    assert(choice !is Specific ==> r@.allowed_function_names =~= Seq::empty());
    r
}

/// What a tool returned, as JSON: the text itself where it is no JSON.
pub open spec fn tool_output(text: Seq<char>, parsed: Option<JsonView>) -> JsonView {
    match parsed {
        Some(value) => value,
        None => JsonView::String(text),
    }
}

/// The part that reports what a tool returned, under the name `output`.
pub open spec fn tool_result_part(
    id: Seq<char>,
    text: Seq<char>,
    parsed: Option<JsonView>,
) -> PartView {
    proto::plain_part(
        DataView::FunctionResponse(
            FunctionResponseView {
                name: id,
                response: Some(
                    value::members_to_struct(seq![("output"@, tool_output(text, parsed))]),
                ),
            },
        ),
    )
}

/// The part that reports what a tool returned, given what reading it as JSON came to.
pub fn report_tool_result(id: String, text: String, parsed: Option<Json>) -> (r: Part)
    ensures
        r@ == tool_result_part(id@, text@, model::opt_view(parsed)),
{
    let output = match parsed {
        Some(value) => value,
        None => Json::String(text),
    };
    let ghost shown = output@;
    let mut members: Vec<(String, Json)> = Vec::new();
    members.push(("output".to_string(), output));
    assert(json::member_views(members@) =~= seq![("output"@, shown)]);
    let whole = Json::Object(members);
    proof {
        json::lemma_json_view(whole);
    }
    let response = value::json_to_prost_struct(whole);
    let response = match response {
        Ok(response) => Some(response),
        Err(_) => None,
    };
    Part::plain(Data::FunctionResponse(FunctionResponse { name: id, response }))
}

/// Whether Vertex AI takes images of this media type.
pub open spec fn is_supported_image(media_type: ImageMediaType) -> bool {
    match media_type {
        ImageMediaType::JPEG => true,
        ImageMediaType::PNG => true,
        ImageMediaType::WEBP => true,
        ImageMediaType::HEIC => true,
        ImageMediaType::HEIF => true,
        ImageMediaType::GIF => false,
        ImageMediaType::SVG => false,
    }
}

/// The part that holds the bytes of an image.
pub open spec fn inline_image(media_type: ImageMediaType, data: Seq<u8>) -> PartView {
    proto::plain_part(
        DataView::InlineData(BlobView { mime_type: message::image_mime_type(media_type), data }),
    )
}

/// The part that holds the bytes of an image, once they are decoded.
pub open spec fn decoded_image(
    media_type: ImageMediaType,
    decoded: Result<Seq<u8>, CompletionErrorView>,
) -> PartResult {
    match decoded {
        Ok(data) => Ok(inline_image(media_type, data)),
        Err(e) => Err(e),
    }
}

/// The part that holds an image, or why Vertex AI does not take it.
pub open spec fn image_part(image: ImageView) -> PartResult {
    match image.media_type {
        None => Err(
            CompletionErrorView::RequestError("Media type for image is required for Vertex"@),
        ),
        Some(media_type) => if !is_supported_image(media_type) {
            Err(
                CompletionErrorView::RequestError(
                    "Unsupported image media type "@ + message::image_type_name(media_type),
                ),
            )
        } else {
            match image.data {
                SourceView::Url(file_uri) => Ok(
                    proto::plain_part(
                        DataView::FileData(
                            FileDataView {
                                mime_type: message::image_mime_type(media_type),
                                file_uri,
                            },
                        ),
                    ),
                ),
                SourceView::Raw(data) => Ok(inline_image(media_type, data)),
                SourceView::Base64(data) => decoded_image(
                    media_type,
                    encoding::decoded_bytes(data),
                ),
                SourceView::String(data) => decoded_image(
                    media_type,
                    encoding::decoded_bytes(data),
                ),
                SourceView::Unknown => Err(
                    CompletionErrorView::RequestError("Image content has no body"@),
                ),
                SourceView::Other => Err(
                    CompletionErrorView::RequestError("Unsupported document source kind"@),
                ),
            }
        },
    }
}

/// Whether Vertex AI takes images of this media type.
pub fn supports_image(media_type: ImageMediaType) -> (r: bool)
    ensures
        r == is_supported_image(media_type),
{
    match media_type {
        ImageMediaType::JPEG => true,
        ImageMediaType::PNG => true,
        ImageMediaType::WEBP => true,
        ImageMediaType::HEIC => true,
        ImageMediaType::HEIF => true,
        ImageMediaType::GIF => false,
        ImageMediaType::SVG => false,
    }
}

/// The part that holds the bytes of an image, given what decoding them came to.
pub fn attach_image(
    media_type: ImageMediaType,
    decoded: Result<Vec<u8>, CompletionError>,
) -> (r: Result<Part, CompletionError>)
    ensures
        model::result_view(r) == decoded_image(media_type, model::result_view(decoded)),
{
    match decoded {
        Ok(data) => Ok(
            Part::plain(
                Data::InlineData(
                    Blob { mime_type: media_type.to_mime_type().to_string(), data },
                ),
            ),
        ),
        Err(e) => Err(e),
    }
}

/// The part that holds an image, or why Vertex AI does not take it.
pub fn image_to_grpc_part(image: Image) -> (r: Result<Part, CompletionError>)
    ensures
        model::result_view(r) == image_part(image@),
{
    let media_type = match image.media_type {
        Some(media_type) => media_type,
        None => {
            return Err(CompletionError::request("Media type for image is required for Vertex"));
        },
    };
    if !supports_image(media_type) {
        return Err(
            CompletionError::RequestError(
                text::append_to("Unsupported image media type ", media_type.name()),
            ),
        );
    }
    match image.data {
        DocumentSourceKind::Url(file_uri) => Ok(
            Part::plain(
                Data::FileData(
                    FileData { mime_type: media_type.to_mime_type().to_string(), file_uri },
                ),
            ),
        ),
        DocumentSourceKind::Raw(data) => attach_image(media_type, Ok(data)),
        DocumentSourceKind::Base64(data) => attach_image(
            media_type,
            encoding::decode_base64_bytes(data.as_str()),
        ),
        DocumentSourceKind::String(data) => attach_image(
            media_type,
            encoding::decode_base64_bytes(data.as_str()),
        ),
        DocumentSourceKind::Unknown => Err(CompletionError::request("Image content has no body")),
        DocumentSourceKind::Other => Err(
            CompletionError::request("Unsupported document source kind"),
        ),
    }
}

/// The part for a piece of what the user says, or why it cannot be sent.
pub open spec fn user_part(content: UserContentView) -> PartResult {
    match content {
        UserContentView::Text(text) => Ok(proto::plain_part(DataView::Text(text))),
        UserContentView::ToolResult(result) => match result.content[0] {
            ToolResultContentView::Text(text) => Ok(
                tool_result_part(result.id, text, json::parsed_contents(text)),
            ),
            ToolResultContentView::Image(_) => Err(
                CompletionErrorView::RequestError("Tool result content must be text"@),
            ),
        },
        UserContentView::Image(image) => image_part(image),
        _ => Err(CompletionErrorView::RequestError("Unsupported user content type"@)),
    }
}

/// The part for a piece of what the user says, or why it cannot be sent. Of what a tool returned,
/// the first piece counts.
pub fn rig_user_content_to_grpc_part(content: UserContent) -> (r: Result<Part, CompletionError>)
    ensures
        model::result_view(r) == user_part(content@),
{
    match content {
        UserContent::Text(Text { text }) => Ok(Part::plain(Data::Text(text))),
        UserContent::ToolResult(result) => {
            proof {
                result.content.lemma_not_empty();
            }
            let text = match result.content.first() {
                ToolResultContent::Text(t) => t.text.clone(),
                ToolResultContent::Image(_) => {
                    return Err(CompletionError::request("Tool result content must be text"));
                },
            };
            let parsed = Json::parse(text.as_str());
            Ok(report_tool_result(result.id, text, parsed))
        },
        UserContent::Image(image) => image_to_grpc_part(image),
        _ => Err(CompletionError::request("Unsupported user content type")),
    }
}

/// The part for a piece of what the assistant said, or why it cannot be sent.
pub open spec fn assistant_part(content: AssistantContentView) -> PartResult {
    match content {
        AssistantContentView::Text(text) => Ok(proto::plain_part(DataView::Text(text))),
        AssistantContentView::ToolCall(call) => match value::json_to_struct(call.arguments) {
            Err(e) => Err(e),
            Ok(args) => match encoding::signature_bytes(call.signature) {
                Err(e) => Err(e),
                Ok(thought_signature) => Ok(
                    PartView {
                        data: Some(
                            DataView::FunctionCall(
                                FunctionCallView { name: call.name, args: Some(args) },
                            ),
                        ),
                        thought: false,
                        thought_signature,
                    },
                ),
            },
        },
        AssistantContentView::Reasoning(reasoning) => match encoding::signature_bytes(
            message::first_signature_of(reasoning.content),
        ) {
            Err(e) => Err(e),
            Ok(thought_signature) => Ok(
                PartView {
                    data: Some(
                        DataView::Text(
                            text::joined(message::shown_texts(reasoning.content), "\n"@),
                        ),
                    ),
                    thought: true,
                    thought_signature,
                },
            ),
        },
        AssistantContentView::Image(_) => Err(
            CompletionErrorView::RequestError("Unsupported assistant content type"@),
        ),
    }
}

/// The part for a piece of what the assistant said, or why it cannot be sent.
pub fn rig_assistant_content_to_grpc_part(content: AssistantContent) -> (r: Result<
    Part,
    CompletionError,
>)
    ensures
        model::result_view(r) == assistant_part(content@),
{
    match content {
        AssistantContent::Text(Text { text }) => Ok(Part::plain(Data::Text(text))),
        AssistantContent::ToolCall(tool_call) => {
            let args = match value::json_to_prost_struct(tool_call.function.arguments) {
                Ok(args) => args,
                Err(e) => {
                    return Err(e);
                },
            };
            let thought_signature = match encoding::decode_optional_base64(tool_call.signature) {
                Ok(bytes) => bytes,
                Err(e) => {
                    return Err(e);
                },
            };
            Ok(
                Part {
                    data: Some(
                        Data::FunctionCall(
                            FunctionCall { name: tool_call.function.name, args: Some(args) },
                        ),
                    ),
                    thought: false,
                    thought_signature,
                },
            )
        },
        AssistantContent::Reasoning(reasoning) => {
            let signature: Option<String> = match reasoning.first_signature() {
                Some(signature) => Some(signature.to_string()),
                None => None,
            };
            let thought_signature = match encoding::decode_optional_base64(signature) {
                Ok(bytes) => bytes,
                Err(e) => {
                    return Err(e);
                },
            };
            Ok(
                Part {
                    data: Some(Data::Text(reasoning.display_text())),
                    thought: true,
                    thought_signature,
                },
            )
        },
        AssistantContent::Image(_) => Err(
            CompletionError::request("Unsupported assistant content type"),
        ),
    }
}

/// What each piece of what the user says comes to, in order.
pub open spec fn user_parts(content: Seq<UserContentView>) -> Seq<PartResult> {
    content.map_values(|c: UserContentView| user_part(c))
}

/// What each piece of what the assistant said comes to, in order.
pub open spec fn assistant_parts(content: Seq<AssistantContentView>) -> Seq<PartResult> {
    content.map_values(|c: AssistantContentView| assistant_part(c))
}

/// A message with the given role, unless one of its parts cannot be sent: then the error of the
/// first such part.
pub open spec fn content_with(role: Seq<char>, parts: Seq<PartResult>) -> ContentResult {
    match model::collected(parts) {
        Ok(parts) => Ok(ContentView { role, parts }),
        Err(e) => Err(e),
    }
}

/// The Vertex AI message for a message, or why it cannot be sent.
pub open spec fn message_content(msg: MessageView) -> ContentResult {
    match msg {
        MessageView::User(content) => content_with("user"@, user_parts(content)),
        MessageView::Assistant(_, content) => content_with("model"@, assistant_parts(content)),
    }
}

/// The Vertex AI message for a message, or the error of its first part that cannot be sent.
pub fn rig_message_to_grpc_content(msg: Message) -> (r: Result<Content, CompletionError>)
    ensures
        model::result_view(r) == message_content(msg@),
{
    match msg {
        Message::User { content } => {
            let items = content.into_vec();
            let ghost all = user_parts(model::views(items@));
            let mut parts: Vec<Part> = Vec::new();
            assert(all.take(0) =~= Seq::empty());
            assert(model::views(parts@) =~= Seq::empty());
            for item in it: items
                invariant
                    it.seq() == items@,
                    all == user_parts(model::views(items@)),
                    message_content(msg@) == content_with("user"@, all),
                    model::collected(all.take(it.index() as int)) == PartsResult::Ok(
                        model::views(parts@),
                    ),
            {
                let ghost k = it.index() as int;
                let ghost before = parts@;
                proof {
                    assert(all[k] == user_part(item@));
                    model::lemma_collected_step(all, k);
                }
                match rig_user_content_to_grpc_part(item) {
                    Ok(part) => {
                        parts.push(part);
                        assert(model::views(parts@) =~= model::views(before).push(part@));
                    },
                    Err(e) => {
                        proof {
                            model::lemma_collected_error(all, k + 1);
                        }
                        return Err(e);
                    },
                }
            }
            assert(all.take(items@.len() as int) =~= all);
            Ok(Content { parts, role: "user".to_string() })
        },
        Message::Assistant { id: _, content } => {
            let items = content.into_vec();
            let ghost all = assistant_parts(model::views(items@));
            let mut parts: Vec<Part> = Vec::new();
            assert(all.take(0) =~= Seq::empty());
            assert(model::views(parts@) =~= Seq::empty());
            for item in it: items
                invariant
                    it.seq() == items@,
                    all == assistant_parts(model::views(items@)),
                    message_content(msg@) == content_with("model"@, all),
                    model::collected(all.take(it.index() as int)) == PartsResult::Ok(
                        model::views(parts@),
                    ),
            {
                let ghost k = it.index() as int;
                let ghost before = parts@;
                proof {
                    assert(all[k] == assistant_part(item@));
                    model::lemma_collected_step(all, k);
                }
                match rig_assistant_content_to_grpc_part(item) {
                    Ok(part) => {
                        parts.push(part);
                        assert(model::views(parts@) =~= model::views(before).push(part@));
                    },
                    Err(e) => {
                        proof {
                            model::lemma_collected_error(all, k + 1);
                        }
                        return Err(e);
                    },
                }
            }
            assert(all.take(items@.len() as int) =~= all);
            Ok(Content { parts, role: "model".to_string() })
        },
    }
}

/// A piece of what the assistant says, or the error that is reported in its place.
pub type AssistantResult = Result<AssistantContentView, CompletionErrorView>;

/// What the arguments of a function call are in JSON: an empty object where there are none.
pub open spec fn call_arguments(call: FunctionCallView) -> JsonView {
    match call.args {
        Some(args) => value::struct_to_json(args),
        None => JsonView::Object(Seq::empty()),
    }
}

/// The call of a tool that a function call with a signature asks for. It is identified by the
/// function's name.
pub open spec fn requested_call(call: FunctionCallView, signature: Seq<u8>) -> ToolCallView {
    ToolCallView {
        id: call.name,
        name: call.name,
        arguments: call_arguments(call),
        signature: encoding::signature_text(signature),
    }
}

/// A single block of plain text, with its signature where there is one.
pub open spec fn thought(text: Seq<char>, signature: Option<Seq<char>>) -> ReasoningView {
    ReasoningView { id: None, content: seq![ReasoningContentView::Text { text, signature }] }
}

/// The image that some bytes are, given how their MIME type was understood.
pub open spec fn blob_content(
    data: Seq<u8>,
    media_type: Option<ImageMediaType>,
    shown: Seq<char>,
) -> AssistantResult {
    match media_type {
        Some(media_type) => Ok(
            AssistantContentView::Image(
                ImageView {
                    data: SourceView::Base64(encoding::base64_encoded(Variant::Standard, data)),
                    media_type: Some(media_type),
                    detail: Some(ImageDetail::Auto),
                },
            ),
        ),
        None => Err(CompletionErrorView::ResponseError("Unsupported media type "@ + shown)),
    }
}

/// What a part of a response says, or why it cannot be understood.
pub open spec fn part_content(part: PartView) -> AssistantResult {
    match part.data {
        Some(DataView::Text(text)) => if part.thought {
            Ok(
                AssistantContentView::Reasoning(
                    thought(text, encoding::signature_text(part.thought_signature)),
                ),
            )
        } else {
            Ok(AssistantContentView::Text(text))
        },
        Some(DataView::InlineData(blob)) => blob_content(
            blob.data,
            message::mime_image_type(blob.mime_type),
            message::media_type_shown(blob.mime_type),
        ),
        Some(DataView::FunctionCall(call)) => Ok(
            AssistantContentView::ToolCall(requested_call(call, part.thought_signature)),
        ),
        _ => Err(
            CompletionErrorView::ResponseError("Response did not contain a message or tool call"@),
        ),
    }
}

/// Whether the bytes of a part have base64 forms that fit in memory.
pub open spec fn encodable_part(part: PartView) -> bool {
    &&& encoding::encodable(part.thought_signature.len())
    &&& part.data matches Some(DataView::InlineData(blob)) ==> encoding::encodable(blob.data.len())
}

/// Whether a part of a response can be sent back as it came: plain text without a signature, a
/// thought, or a function call whose arguments JSON can express.
pub open spec fn replayable(part: PartView) -> bool {
    match part.data {
        Some(DataView::Text(_)) => part.thought || part.thought_signature.len() == 0,
        Some(DataView::FunctionCall(call)) => {
            &&& !part.thought
            &&& call.args matches Some(args)
            &&& value::expressible(ValueView::Struct(args))
        },
        _ => false,
    }
}

/// The image that some bytes are, given how their MIME type was understood.
pub fn blob_to_assistant_content(
    data: &Vec<u8>,
    media_type: Option<ImageMediaType>,
    shown: &str,
) -> (r: Result<AssistantContent, CompletionError>)
    requires
        encoding::encodable(data@.len()),
    ensures
        model::result_view(r) == blob_content(data@, media_type, shown@),
{
    match media_type {
        Some(media_type) => Ok(
            AssistantContent::Image(
                Image {
                    data: DocumentSourceKind::Base64(
                        encoding::encode_base64(Variant::Standard, data.as_slice()),
                    ),
                    media_type: Some(media_type),
                    detail: Some(ImageDetail::Auto),
                },
            ),
        ),
        None => Err(
            CompletionError::ResponseError(text::append_to("Unsupported media type ", shown)),
        ),
    }
}

/// The call of a tool that a function call with a signature asks for. The signature of the call
/// gives the bytes back.
pub fn call_to_tool_call(call: &FunctionCall, signature: &[u8]) -> (r: ToolCall)
    requires
        encoding::encodable(signature@.len()),
    ensures
        r@ == requested_call(call@, signature@),
        encoding::signature_bytes(r@.signature) == encoding::Decoded::Ok(signature@),
{
    let arguments = match &call.args {
        Some(args) => value::prost_struct_to_json(args),
        None => {
            let empty = Json::Object(Vec::new());
            proof {
                json::lemma_json_view(empty);
                assert(empty@->Object_0 =~= Seq::empty());
            }
            empty
        },
    };
    ToolCall {
        id: call.name.clone(),
        function: ToolFunction { name: call.name.clone(), arguments },
        signature: encoding::encode_optional_base64(signature),
    }
}

/// What a part of a response says, or why it cannot be understood. What can be sent back is sent
/// back as it came.
pub fn part_to_assistant_content(part: &Part) -> (r: Result<AssistantContent, CompletionError>)
    requires
        encodable_part(part@),
    ensures
        model::result_view(r) == part_content(part@),
        r matches Ok(content) ==> replayable(part@) ==> assistant_part(content@) == PartResult::Ok(
            part@,
        ),
{
    match &part.data {
        Some(Data::Text(text)) => {
            if part.thought {
                let signature = encoding::encode_optional_base64(
                    part.thought_signature.as_slice(),
                );
                let ghost shown = model::opt_view(signature);
                let reasoning = Reasoning::new_with_signature(text.as_str(), signature);
                proof {
                    let blocks = reasoning@.content;
                    assert(blocks =~= thought(text@, shown).content);
                    assert(blocks.drop_last() =~= Seq::empty());
                    assert(blocks.skip(1) =~= Seq::empty());
                    assert(message::shown_texts(blocks.drop_last()) =~= Seq::empty());
                    assert(message::shown_texts(blocks) =~= seq![text@]);
                    reveal_with_fuel(message::first_signature_of, 2);
                    assert(blocks[0] == (ReasoningContentView::Text {
                        text: text@,
                        signature: shown,
                    }));
                    assert(message::first_signature_of(blocks) == shown);
                }
                Ok(AssistantContent::Reasoning(reasoning))
            } else {
                proof {
                    if replayable(part@) {
                        assert(part@.thought_signature =~= Seq::empty());
                    }
                }
                Ok(AssistantContent::Text(Text { text: text.clone() }))
            }
        },
        Some(Data::InlineData(blob)) => {
            let (media_type, shown) = message::media_type_of(blob.mime_type.as_str());
            blob_to_assistant_content(&blob.data, media_type, shown.as_str())
        },
        Some(Data::FunctionCall(call)) => {
            let tool_call = call_to_tool_call(call, part.thought_signature.as_slice());
            proof {
                if replayable(part@) {
                    value::law_struct_survives_json(call@.args->0);
                }
            }
            Ok(AssistantContent::ToolCall(tool_call))
        },
        _ => Err(CompletionError::response("Response did not contain a message or tool call")),
    }
}

/// What each part of a response says, in order.
pub open spec fn part_contents(parts: Seq<PartView>) -> Seq<AssistantResult> {
    parts.map_values(|p: PartView| part_content(p))
}

/// A token count as the unsigned number with the same low bits: a negative one wraps round.
pub open spec fn token_count(n: i32) -> u64 {
    if n >= 0 {
        n as u64
    } else {
        (n + 0x1_0000_0000_0000_0000) as u64
    }
}

/// The unsigned form of a token count.
pub fn unsigned_count(n: i32) -> (r: u64)
    ensures
        r == token_count(n),
{
    assert(n >= 0 ==> (n as u64) == n) by (bit_vector);
    assert(n < 0 ==> (n as u64) == n + 0x1_0000_0000_0000_0000) by (bit_vector);
    n as u64
}

/// The usage that a response reports: none where it reports nothing.
pub open spec fn reported_usage(usage: Option<UsageMetadata>) -> Usage {
    match usage {
        Some(usage) => Usage {
            input_tokens: token_count(usage.prompt_token_count),
            output_tokens: token_count(usage.candidates_token_count),
            total_tokens: token_count(usage.total_token_count),
            cached_input_tokens: token_count(usage.cached_content_token_count),
        },
        None => Usage {
            input_tokens: 0,
            output_tokens: 0,
            total_tokens: 0,
            cached_input_tokens: 0,
        },
    }
}

/// The usage that a response reports: none where it reports nothing.
pub fn usage_of(usage: Option<UsageMetadata>) -> (r: Usage)
    ensures
        r == reported_usage(usage),
{
    match usage {
        Some(usage) => Usage {
            input_tokens: unsigned_count(usage.prompt_token_count),
            output_tokens: unsigned_count(usage.candidates_token_count),
            total_tokens: unsigned_count(usage.total_token_count),
            cached_input_tokens: unsigned_count(usage.cached_content_token_count),
        },
        None => Usage {
            input_tokens: 0,
            output_tokens: 0,
            total_tokens: 0,
            cached_input_tokens: 0,
        },
    }
}

/// What the assistant says in a response, or the error that is reported in its place.
pub type ChoiceResult = Result<Seq<AssistantContentView>, CompletionErrorView>;

/// What the assistant says in a response: what its first candidate says, part by part.
pub open spec fn response_choice(response: GenerateContentResponseView) -> ChoiceResult {
    if response.candidates.len() == 0 {
        Err(CompletionErrorView::ResponseError("No response candidates in response"@))
    } else {
        match response.candidates[0].content {
            None => Err(
                CompletionErrorView::ResponseError(
                    "Vertex candidate missing content (finish_reason="@ + text::decimal(
                        response.candidates[0].finish_reason as int,
                    ) + ")"@,
                ),
            ),
            Some(content) => match model::collected(part_contents(content.parts)) {
                Err(e) => Err(e),
                Ok(contents) => if contents.len() == 0 {
                    Err(
                        CompletionErrorView::ResponseError(
                            "Response contained no message or tool call (empty)"@,
                        ),
                    )
                } else {
                    Ok(contents)
                },
            },
        }
    }
}

/// The parts of the first candidate of a response.
pub open spec fn first_parts(response: GenerateContentResponseView) -> Seq<PartView> {
    if response.candidates.len() > 0 && response.candidates[0].content is Some {
        response.candidates[0].content->0.parts
    } else {
        Seq::empty()
    }
}

/// Whether the bytes in the first candidate of a response have base64 forms that fit in memory.
pub open spec fn encodable_response(response: GenerateContentResponseView) -> bool {
    forall|i: int|
        0 <= i < first_parts(response).len() ==> encodable_part(#[trigger] first_parts(response)[i])
}

fn is_encodable_part(part: &Part) -> (r: bool)
    ensures
        r == encodable_part(part@),
{
    encoding::is_encodable(part.thought_signature.len()) && match &part.data {
        Some(Data::InlineData(blob)) => encoding::is_encodable(blob.data.len()),
        _ => true,
    }
}

/// Whether the bytes in the first candidate of a response have base64 forms that fit in memory.
pub fn is_encodable_response(response: &GenerateContentResponse) -> (r: bool)
    ensures
        r == encodable_response(response@),
{
    if response.candidates.len() == 0 {
        return true;
    }
    assert(response@.candidates[0] == response.candidates@[0]@);
    let content = match &response.candidates[0].content {
        Some(content) => content,
        None => {
            return true;
        },
    };
    let ghost all = first_parts(response@);
    assert(all == model::views(content.parts@));
    let mut i: usize = 0;
    while i < content.parts.len()
        invariant
            i <= content.parts@.len(),
            all == model::views(content.parts@),
            all == first_parts(response@),
            forall|k: int| 0 <= k < i ==> encodable_part(#[trigger] all[k]),
        decreases content.parts@.len() - i,
    {
        assert(all[i as int] == content.parts@[i as int]@);
        if !is_encodable_part(&content.parts[i]) {
            return false;
        }
        i += 1;
    }
    true
}

/// Whether every part of the first candidate of a response can be sent back as it came.
pub open spec fn replayable_response(response: GenerateContentResponseView) -> bool {
    forall|i: int|
        0 <= i < first_parts(response).len() ==> replayable(#[trigger] first_parts(response)[i])
}

impl CompletionResponse {
    /// The completion that a response is, or why it is none. Where every part can be sent back,
    /// the completion as a message of the assistant is sent as it came.
    pub fn try_from(response: GenerateContentResponse) -> (r: Result<
        CompletionResponse,
        CompletionError,
    >)
        requires
            encodable_response(response@),
        ensures
            (match r {
                Ok(completion) => ChoiceResult::Ok(completion.choice@),
                Err(e) => ChoiceResult::Err(e@),
            }) == response_choice(response@),
            r matches Ok(completion) ==> {
                &&& completion.usage == reported_usage(response.usage_metadata)
                &&& completion.raw_response == response
                &&& completion.message_id is None
            },
            r matches Ok(completion) ==> replayable_response(response@) ==> message_content(
                MessageView::Assistant(None, completion.choice@),
            ) == ContentResult::Ok(
                (ContentView { role: "model"@, parts: first_parts(response@) }),
            ),
    {
        if response.candidates.len() == 0 {
            return Err(CompletionError::response("No response candidates in response"));
        }
        let candidate = &response.candidates[0];
        assert(response@.candidates[0] == candidate@);
        let content = match &candidate.content {
            Some(content) => content,
            None => {
                let head = text::append_to(
                    "Vertex candidate missing content (finish_reason=",
                    text::decimal_text(candidate.finish_reason).as_str(),
                );
                return Err(CompletionError::ResponseError(text::append_to(head.as_str(), ")")));
            },
        };
        let ghost parts = first_parts(response@);
        let ghost all = part_contents(parts);
        assert(parts == model::views(content.parts@));
        let mut contents: Vec<AssistantContent> = Vec::new();
        let mut i: usize = 0;
        proof {
            assert(all.take(0) =~= Seq::empty());
            assert(model::views(contents@) =~= Seq::empty());
        }
        while i < content.parts.len()
            invariant
                i <= content.parts@.len(),
                parts == model::views(content.parts@),
                parts == first_parts(response@),
                encodable_response(response@),
                all == part_contents(parts),
                model::collected(all) is Err ==> response_choice(response@) == ChoiceResult::Err(
                    model::collected(all)->Err_0,
                ),
                model::collected(all.take(i as int)) == ChoiceResult::Ok(model::views(contents@)),
                contents@.len() == i,
                forall|k: int|
                    0 <= k < i ==> replayable(parts[k]) ==> assistant_part(
                        (#[trigger] contents@[k])@,
                    ) == PartResult::Ok(parts[k]),
            decreases content.parts@.len() - i,
        {
            let ghost before = contents@;
            proof {
                assert(parts[i as int] == content.parts@[i as int]@);
                assert(encodable_part(parts[i as int]));
                assert(all[i as int] == part_content(parts[i as int]));
                model::lemma_collected_step(all, i as int);
            }
            match part_to_assistant_content(&content.parts[i]) {
                Ok(item) => {
                    contents.push(item);
                    assert(model::views(contents@) =~= model::views(before).push(item@));
                },
                Err(e) => {
                    proof {
                        model::lemma_collected_error(all, i + 1);
                    }
                    return Err(e);
                },
            }
            i += 1;
        }
        assert(all.take(i as int) =~= all);
        let ghost said = contents@;
        let choice = match OneOrMany::many(contents) {
            Ok(choice) => choice,
            Err(_) => {
                return Err(
                    CompletionError::response("Response contained no message or tool call (empty)"),
                );
            },
        };
        proof {
            if replayable_response(response@) {
                let results = assistant_parts(choice@);
                assert forall|k: int| 0 <= k < results.len() implies #[trigger] results[k]
                    == PartResult::Ok(parts[k]) by {
                    assert(replayable(parts[k]));
                    assert(assistant_part(said[k]@) == PartResult::Ok(parts[k]));
                }
                model::lemma_collected_ok(results);
                assert(model::collected(results)->Ok_0 =~= parts);
            }
        }
        let usage = usage_of(response.usage_metadata);
        Ok(CompletionResponse { choice, usage, raw_response: response, message_id: None })
    }
}

/// The texts of the parts that hold text, in order.
pub open spec fn part_texts(parts: Seq<PartView>) -> Seq<Seq<char>>
    decreases parts.len(),
{
    if parts.len() == 0 {
        Seq::empty()
    } else {
        match parts.last().data {
            Some(DataView::Text(text)) => part_texts(parts.drop_last()).push(text),
            _ => part_texts(parts.drop_last()),
        }
    }
}

/// The texts of the first candidate of a response, a line break between each two. None where
/// there is no text.
pub open spec fn response_text(response: GenerateContentResponseView) -> Option<Seq<char>> {
    let texts = part_texts(first_parts(response));
    if texts.len() == 0 {
        None
    } else {
        Some(text::joined(texts, "\n"@))
    }
}

/// A string that may be empty: none where it is.
pub open spec fn unless_empty(s: Seq<char>) -> Option<Seq<char>> {
    if s.len() == 0 {
        None
    } else {
        Some(s)
    }
}

impl GenerateContentResponse {
    /// The ID of the response, where it has one.
    pub fn get_response_id(&self) -> (r: Option<String>)
        ensures
            model::opt_view(r) == unless_empty(self@.response_id),
    {
        if self.response_id.as_str().is_empty() {
            None
        } else {
            Some(self.response_id.clone())
        }
    }

    /// The version of the model that answered, where the response names it.
    pub fn get_response_model_name(&self) -> (r: Option<String>)
        ensures
            model::opt_view(r) == unless_empty(self@.model_version),
    {
        if self.model_version.as_str().is_empty() {
            None
        } else {
            Some(self.model_version.clone())
        }
    }

    /// The candidates of the response.
    pub fn get_output_messages(&self) -> (r: Vec<Candidate>)
        ensures
            model::views(r@) == self@.candidates,
    {
        let mut candidates: Vec<Candidate> = Vec::new();
        let mut i: usize = 0;
        while i < self.candidates.len()
            invariant
                i <= self.candidates@.len(),
                candidates@.len() == i,
                forall|k: int|
                    0 <= k < candidates@.len() ==> (#[trigger] candidates@[k])@
                        == self.candidates@[k]@,
            decreases self.candidates@.len() - i,
        {
            candidates.push(self.candidates[i].clone());
            i += 1;
        }
        assert(model::views(candidates@) =~= self@.candidates);
        candidates
    }

    /// The texts of the first candidate, a line break between each two. `None` where there is no
    /// text.
    pub fn get_text_response(&self) -> (r: Option<String>)
        ensures
            model::opt_view(r) == response_text(self@),
    {
        if self.candidates.len() == 0 {
            return None;
        }
        assert(self@.candidates[0] == self.candidates@[0]@);
        let content = match &self.candidates[0].content {
            Some(content) => content,
            None => {
                return None;
            },
        };
        let ghost all = first_parts(self@);
        let mut texts: Vec<String> = Vec::new();
        let mut i: usize = 0;
        proof {
            assert(all == model::views(content.parts@));
            assert(all.take(0) =~= Seq::empty());
            assert(model::views(texts@) =~= Seq::empty());
        }
        while i < content.parts.len()
            invariant
                i <= content.parts@.len(),
                all == model::views(content.parts@),
                model::views(texts@) == part_texts(all.take(i as int)),
            decreases content.parts@.len() - i,
        {
            let ghost before = texts@;
            proof {
                assert(all.take(i + 1).drop_last() =~= all.take(i as int));
                assert(all.take(i + 1).last() == content.parts@[i as int]@);
            }
            match &content.parts[i].data {
                Some(Data::Text(text)) => {
                    texts.push(text.clone());
                    assert(model::views(texts@) =~= model::views(before).push(text@));
                },
                _ => {},
            }
            i += 1;
        }
        assert(all.take(i as int) =~= all);
        assert(model::views(texts@).len() == texts@.len());
        if texts.len() == 0 {
            None
        } else {
            Some(text::join(&texts, "\n"))
        }
    }

    /// The usage that the response reports.
    pub fn get_usage(&self) -> (r: Option<UsageMetadata>)
        ensures
            r == self@.usage_metadata,
    {
        self.usage_metadata
    }
}

/// The low 32 bits of `n`, as a signed number.
pub open spec fn low_signed(n: u64) -> i32 {
    let low = n % 0x1_0000_0000;
    if low < 0x8000_0000 {
        low as i32
    } else {
        (low - 0x1_0000_0000) as i32
    }
}

/// The low 32 bits of `n`, as a signed number.
pub fn signed_count(n: u64) -> (r: i32)
    ensures
        r == low_signed(n),
        n <= i32::MAX ==> r == n,
{
    assert(n % 0x1_0000_0000 < 0x8000_0000 ==> #[verifier::truncate] (n as i32) == n
        % 0x1_0000_0000) by (bit_vector);
    assert(n % 0x1_0000_0000 >= 0x8000_0000 ==> #[verifier::truncate] (n as i32) == (n
        % 0x1_0000_0000) - 0x1_0000_0000) by (bit_vector);
    #[verifier::truncate] (n as i32)
}

/// What each message of a conversation comes to, in order.
pub open spec fn history_contents(history: Seq<MessageView>) -> Seq<ContentResult> {
    history.map_values(|m: MessageView| message_content(m))
}

/// The system instruction with a given text.
pub open spec fn system_content(preamble: Seq<char>) -> ContentView {
    ContentView { role: "model"@, parts: seq![proto::plain_part(DataView::Text(preamble))] }
}

/// How the model is to generate. Nothing is said of that where nothing is asked for.
pub open spec fn generation_config(
    temperature: Option<u32>,
    max_tokens: Option<u64>,
    schema: Option<JsonView>,
) -> Option<GenerationConfigView> {
    if temperature is None && max_tokens is None && schema is None {
        None
    } else {
        Some(
            GenerationConfigView {
                temperature,
                max_output_tokens: match max_tokens {
                    Some(n) => Some(low_signed(n)),
                    None => None,
                },
                response_mime_type: if schema is Some {
                    "application/json"@
                } else {
                    Seq::empty()
                },
                response_json_schema: match schema {
                    Some(schema) => Some(value::json_to_value(schema)),
                    None => None,
                },
            },
        )
    }
}

/// How a tool is declared to the model.
pub open spec fn declaration(tool: ToolDefinitionView) -> FunctionDeclarationView {
    FunctionDeclarationView {
        name: tool.name,
        description: tool.description,
        parameters_json_schema: Some(value::json_to_value(tool.parameters)),
    }
}

/// How tools are declared to the model: all of them as one, where there are any.
pub open spec fn declared_tools(tools: Seq<ToolDefinitionView>) -> Seq<
    Seq<FunctionDeclarationView>,
> {
    if tools.len() == 0 {
        Seq::empty()
    } else {
        seq![tools.map_values(|t: ToolDefinitionView| declaration(t))]
    }
}

/// A request, or the error that is reported in its place.
pub type RequestResult = Result<GenerateContentRequestView, CompletionErrorView>;

/// The messages of a conversation, or the error that is reported in their place.
pub type ContentsResult = Result<Seq<ContentView>, CompletionErrorView>;

/// The model that a request asks: its own, or else the default one.
pub open spec fn asked_model(default_model: Seq<char>, model: Option<Seq<char>>) -> Seq<char> {
    match model {
        Some(model) => model,
        None => default_model,
    }
}

/// The Vertex AI request with given messages and a given schema of the output, all else as in
/// the completion request.
pub open spec fn request_with(
    client: VertexClientView,
    default_model: Seq<char>,
    request: CompletionRequestView,
    contents: Seq<ContentView>,
    schema: Option<JsonView>,
) -> GenerateContentRequestView {
    GenerateContentRequestView {
        model: client::model_path(
            client.project,
            client.location,
            asked_model(default_model, request.model),
        ),
        contents,
        system_instruction: match request.preamble {
            Some(preamble) => Some(system_content(preamble)),
            None => None,
        },
        cached_content: Seq::empty(),
        tools: declared_tools(request.tools),
        tool_config: match request.tool_choice {
            Some(choice) => Some(Some(calling_config(choice))),
            None => None,
        },
        labels: Seq::empty(),
        safety_settings: Seq::empty(),
        model_armor_config: None,
        generation_config: generation_config(request.temperature, request.max_tokens, schema),
    }
}

/// The Vertex AI request for a completion request. There is none where a message cannot be sent
/// or the schema of the output has no JSON form.
pub open spec fn grpc_request(
    client: VertexClientView,
    default_model: Seq<char>,
    request: CompletionRequestView,
) -> RequestResult {
    match model::collected(history_contents(request.chat_history)) {
        Err(e) => RequestResult::Err(e),
        Ok(contents) => match request.output_schema {
            Some(Err(e)) => RequestResult::Err(
                CompletionErrorView::RequestError("Invalid output schema: "@ + e),
            ),
            Some(Ok(schema)) => RequestResult::Ok(
                request_with(client, default_model, request, contents, Some(schema)),
            ),
            None => RequestResult::Ok(
                request_with(client, default_model, request, contents, None),
            ),
        },
    }
}

fn history_to_grpc_contents(history: OneOrMany<Message>) -> (r: Result<
    Vec<Content>,
    CompletionError,
>)
    ensures
        (match r {
            Ok(contents) => ContentsResult::Ok(model::views(contents@)),
            Err(e) => ContentsResult::Err(e@),
        }) == model::collected(history_contents(history@)),
{
    let messages = history.into_vec();
    let ghost all = history_contents(model::views(messages@));
    let mut contents: Vec<Content> = Vec::new();
    assert(all.take(0) =~= Seq::empty());
    assert(model::views(contents@) =~= Seq::empty());
    for message in it: messages
        invariant
            it.seq() == messages@,
            all == history_contents(model::views(messages@)),
            all == history_contents(history@),
            model::collected(all.take(it.index() as int)) == ContentsResult::Ok(
                model::views(contents@),
            ),
    {
        let ghost k = it.index() as int;
        let ghost before = contents@;
        proof {
            assert(all[k] == message_content(message@));
            model::lemma_collected_step(all, k);
        }
        match rig_message_to_grpc_content(message) {
            Ok(content) => {
                contents.push(content);
                assert(model::views(contents@) =~= model::views(before).push(content@));
            },
            Err(e) => {
                proof {
                    model::lemma_collected_error(all, k + 1);
                }
                return Err(e);
            },
        }
    }
    assert(all.take(messages@.len() as int) =~= all);
    Ok(contents)
}

fn declare_tools(tools: Vec<ToolDefinition>) -> (r: Vec<Tool>)
    ensures
        model::views(r@) == declared_tools(model::views(tools@)),
{
    if tools.len() == 0 {
        let none: Vec<Tool> = Vec::new();
        assert(model::views(none@) =~= Seq::empty());
        return none;
    }
    let ghost all = model::views(tools@);
    let mut function_declarations: Vec<FunctionDeclaration> = Vec::new();
    for tool in it: tools
        invariant
            it.seq() == tools@,
            all == model::views(tools@),
            function_declarations@.len() == it.index(),
            forall|k: int|
                0 <= k < it.index() ==> (#[trigger] function_declarations@[k])@ == declaration(
                    all[k],
                ),
    {
        assert(all[it.index() as int] == tool@);
        function_declarations.push(
            FunctionDeclaration {
                name: tool.name,
                description: tool.description,
                parameters_json_schema: Some(value::json_to_prost_value(tool.parameters)),
            },
        );
    }
    let r = vec![Tool { function_declarations }];
    assert(r@[0]@ =~= all.map_values(|t: ToolDefinitionView| declaration(t)));
    assert(model::views(r@) =~= declared_tools(all));
    r
}

/// The Vertex AI request for a completion request.
pub fn create_grpc_request(
    client: &VertexClient,
    default_model: String,
    completion_request: CompletionRequest,
) -> (r: Result<GenerateContentRequest, CompletionError>)
    ensures
        model::result_view(r) == grpc_request(client@, default_model@, completion_request@),
{
    let model = match completion_request.model {
        Some(model) => model,
        None => default_model,
    };
    let contents = match history_to_grpc_contents(completion_request.chat_history) {
        Ok(contents) => contents,
        Err(e) => {
            return Err(e);
        },
    };
    let system_instruction = match completion_request.preamble {
        Some(preamble) => {
            let parts = vec![Part::plain(Data::Text(preamble))];
            assert(model::views(parts@) =~= seq![proto::plain_part(DataView::Text(preamble@))]);
            Some(Content { role: "model".to_string(), parts })
        },
        None => None,
    };
    let mut config = GenerationConfig {
        temperature: completion_request.temperature,
        max_output_tokens: None,
        response_mime_type: String::new(),
        response_json_schema: None,
    };
    let mut has_config = completion_request.temperature.is_some();
    if let Some(max_tokens) = completion_request.max_tokens {
        config.max_output_tokens = Some(signed_count(max_tokens));
        has_config = true;
    }
    if let Some(schema) = completion_request.output_schema {
        match schema {
            Ok(schema) => {
                config.response_mime_type = "application/json".to_string();
                config.response_json_schema = Some(value::json_to_prost_value(schema));
                has_config = true;
            },
            Err(e) => {
                return Err(
                    CompletionError::RequestError(
                        text::append_to("Invalid output schema: ", e.as_str()),
                    ),
                );
            },
        }
    }
    let generation_config = if has_config {
        Some(config)
    } else {
        None
    };
    let tools = declare_tools(completion_request.tools);
    let tool_config = match completion_request.tool_choice {
        Some(choice) => Some(
            ToolConfig { function_calling_config: Some(tool_choice_to_vertex(choice)) },
        ),
        None => None,
    };
    let labels: Vec<(String, String)> = Vec::new();
    let request = GenerateContentRequest {
        model: client.resolve_model_path(model.as_str()),
        contents,
        system_instruction,
        cached_content: String::new(),
        tools,
        tool_config,
        labels,
        safety_settings: Vec::new(),
        model_armor_config: None,
        generation_config,
    };
    assert(request@.labels =~= Seq::empty());
    Ok(request)
}

/// A request carries the conversation message by message, in order, each under the role of who
/// spoke it.
pub proof fn law_request_keeps_conversation(
    client: VertexClientView,
    default_model: Seq<char>,
    request: CompletionRequestView,
)
    requires
        grpc_request(client, default_model, request) is Ok,
    ensures
        ({
            let contents = grpc_request(client, default_model, request)->Ok_0.contents;
            &&& contents.len() == request.chat_history.len()
            &&& forall|i: int|
                0 <= i < contents.len() ==> {
                    &&& message_content(request.chat_history[i]) == ContentResult::Ok(
                        #[trigger] contents[i],
                    )
                    &&& contents[i].role == (if request.chat_history[i] is User {
                        "user"@
                    } else {
                        "model"@
                    })
                }
        }),
{
    let all = history_contents(request.chat_history);
    model::lemma_collected_ok(all);
    let contents = grpc_request(client, default_model, request)->Ok_0.contents;
    assert forall|i: int| 0 <= i < contents.len() implies message_content(request.chat_history[i])
        == ContentResult::Ok(#[trigger] contents[i]) by {
        assert(all[i] == message_content(request.chat_history[i]));
    }
}

/// What a tool returned, reported under the ID of the call, goes to the function that the model
/// called: the response has the name of that function.
pub proof fn law_tool_result_answers_call(
    call: FunctionCallView,
    signature: Seq<u8>,
    content: Seq<ToolResultContentView>,
)
    requires
        content.len() > 0,
        content[0] is Text,
    ensures
        ({
            let result = UserContentView::ToolResult(
                ToolResultView { id: requested_call(call, signature).id, content },
            );
            &&& user_part(result) is Ok
            &&& user_part(result)->Ok_0.data matches Some(DataView::FunctionResponse(response))
            &&& response.name == call.name
            &&& response.response is Some
        }),
{
}

/// A request can be made exactly where every message can be sent and the schema of the output,
/// if there is one, has a JSON form.
pub proof fn law_request_can_be_made(
    client: VertexClientView,
    default_model: Seq<char>,
    request: CompletionRequestView,
)
    ensures
        grpc_request(client, default_model, request) is Ok <==> {
            &&& forall|i: int|
                0 <= i < request.chat_history.len() ==> message_content(
                    #[trigger] request.chat_history[i],
                ) is Ok
            &&& request.output_schema matches Some(schema) ==> schema is Ok
        },
{
    let all = history_contents(request.chat_history);
    model::lemma_collected_ok(all);
    assert(forall|i: int|
        0 <= i < all.len() ==> #[trigger] all[i] == message_content(request.chat_history[i]));
    if model::collected(all) is Ok {
        assert forall|i: int| 0 <= i < request.chat_history.len() implies message_content(
            #[trigger] request.chat_history[i],
        ) is Ok by {
            assert(all[i] is Ok);
        }
    } else {
        let i = choose|i: int| 0 <= i < all.len() && !((#[trigger] all[i]) is Ok);
        assert(message_content(request.chat_history[i]) is Err);
    }
}

/// A completion model of Vertex AI.
pub struct CompletionModel {
    pub client: VertexClient,
    pub model: String,
}

impl Clone for CompletionModel {
    fn clone(&self) -> (r: CompletionModel)
        ensures
            r.client@ == self.client@,
            r.model@ == self.model@,
    {
        CompletionModel { client: self.client.clone(), model: self.model.clone() }
    }
}

impl CompletionModel {
    /// The model of the given name.
    pub fn new(client: VertexClient, model: String) -> (r: CompletionModel)
        ensures
            r.client == client,
            r.model == model,
    {
        CompletionModel { client, model }
    }

    /// The request that asks the model for a completion.
    pub fn request(&self, completion_request: CompletionRequest) -> (r: Result<
        GenerateContentRequest,
        CompletionError,
    >)
        ensures
            model::result_view(r) == grpc_request(
                self.client@,
                self.model@,
                completion_request@,
            ),
    {
        create_grpc_request(&self.client, self.model.clone(), completion_request)
    }

    /// The completion that the service's reply comes to, where a reply is a response or the text
    /// of the error in its place.
    pub fn completion(reply: Result<GenerateContentResponse, String>) -> (r: Result<
        CompletionResponse,
        CompletionError,
    >)
        requires
            reply matches Ok(response) ==> encodable_response(response@),
        ensures
            (match r {
                Ok(completion) => ChoiceResult::Ok(completion.choice@),
                Err(e) => ChoiceResult::Err(e@),
            }) == (match reply {
                Ok(response) => response_choice(response@),
                Err(e) => ChoiceResult::Err(CompletionErrorView::ProviderError(e@)),
            }),
            r matches Ok(completion) ==> {
                &&& reply is Ok
                &&& completion.usage == reported_usage(reply->Ok_0.usage_metadata)
                &&& completion.raw_response == reply->Ok_0
                &&& completion.message_id is None
            },
    {
        match reply {
            Ok(response) => CompletionResponse::try_from(response),
            Err(e) => Err(CompletionError::ProviderError(e)),
        }
    }
}

} // verus!
