//! Laws of completion requests and the messages in them.
use crate::encoding;
use crate::encoding::Decoded;
use crate::error::CompletionErrorView;
use crate::json;
use crate::json::{JsonView, Number};
use crate::laws::values;
use crate::message;
use crate::message::{
    AssistantContentView, CompletionRequestView, ImageMediaType, ImageView, MessageView,
    SourceView, ToolCallView, ToolChoiceView, ToolResultView,
    UserContentView,
};
use crate::model;
use crate::proto::{DataView, PartView, ValueView};
use crate::text;
use crate::vertex::client::VertexClientView;
use crate::vertex::completion;
use crate::vertex::completion::{ContentResult, PartResult, RequestResult};
use crate::vertex::value;
use vstd::prelude::*;

verus! {

/// What is asked for of the generation is asked for in the request, each setting on its own:
/// the temperature, the limit on tokens and the schema of the output. The request says nothing of
/// the generation only where none of them is given.
pub proof fn law_generation_settings_are_sent(
    client: VertexClientView,
    default_model: Seq<char>,
    request: CompletionRequestView,
)
    requires
        completion::grpc_request(client, default_model, request) is Ok,
    ensures
        ({
            let config = completion::grpc_request(
                client,
                default_model,
                request,
            )->Ok_0.generation_config;
            &&& request.temperature is Some ==> config is Some && config->0.temperature
                == request.temperature
            &&& request.max_tokens is Some ==> config is Some
                && config->0.max_output_tokens is Some && (request.max_tokens->0
                - config->0.max_output_tokens->0) % 0x1_0000_0000 == 0
            &&& request.max_tokens is Some && request.max_tokens->0 <= i32::MAX
                ==> config->0.max_output_tokens->0 == request.max_tokens->0
            &&& request.output_schema is Some ==> config is Some
                && config->0.response_json_schema == Some(
                value::json_to_value(request.output_schema->0->Ok_0),
            ) && config->0.response_mime_type == "application/json"@
            &&& config is Some ==> {
                &&& request.temperature is None ==> config->0.temperature is None
                &&& request.max_tokens is None ==> config->0.max_output_tokens is None
                &&& request.output_schema is None ==> config->0.response_json_schema is None
                    && config->0.response_mime_type.len() == 0
            }
            &&& config is None <==> request.temperature is None && request.max_tokens is None
                && request.output_schema is None
        }),
{
    if request.max_tokens is Some {
        values::law_signed_counts(request.max_tokens->0);
    }
}

/// The preamble is sent as the system instruction: one plain piece of text, under the role of the
/// model. Without a preamble there is no system instruction.
pub proof fn law_preamble_is_sent(
    client: VertexClientView,
    default_model: Seq<char>,
    request: CompletionRequestView,
)
    requires
        completion::grpc_request(client, default_model, request) is Ok,
    ensures
        ({
            let instruction = completion::grpc_request(
                client,
                default_model,
                request,
            )->Ok_0.system_instruction;
            &&& instruction is Some <==> request.preamble is Some
            &&& instruction is Some ==> {
                &&& instruction->0.role == "model"@
                &&& instruction->0.parts.len() == 1
                &&& instruction->0.parts[0].data == Some(DataView::Text(request.preamble->0))
                &&& !instruction->0.parts[0].thought
                &&& instruction->0.parts[0].thought_signature.len() == 0
            }
        }),
{
}

/// Every tool is declared, in order, under its name, with its description and the schema of its
/// parameters. All declarations are in one set, and there is no set where there is no tool.
pub proof fn law_tools_are_declared(
    client: VertexClientView,
    default_model: Seq<char>,
    request: CompletionRequestView,
)
    requires
        completion::grpc_request(client, default_model, request) is Ok,
    ensures
        ({
            let tools = completion::grpc_request(client, default_model, request)->Ok_0.tools;
            &&& request.tools.len() == 0 ==> tools.len() == 0
            &&& request.tools.len() > 0 ==> tools.len() == 1 && tools[0].len()
                == request.tools.len()
            &&& forall|i: int|
                0 <= i < request.tools.len() ==> {
                    &&& (#[trigger] tools[0][i]).name == request.tools[i].name
                    &&& tools[0][i].description == request.tools[i].description
                    &&& tools[0][i].parameters_json_schema == Some(
                        value::json_to_value(request.tools[i].parameters),
                    )
                }
        }),
{
}

/// The choice of tools is sent: left to the model, forced, forbidden, or forced among some, which
/// are named. Without a choice nothing is said of it.
pub proof fn law_tool_choice_is_sent(
    client: VertexClientView,
    default_model: Seq<char>,
    request: CompletionRequestView,
)
    requires
        completion::grpc_request(client, default_model, request) is Ok,
    ensures
        ({
            let config = completion::grpc_request(
                client,
                default_model,
                request,
            )->Ok_0.tool_config;
            &&& config is Some <==> request.tool_choice is Some
            &&& config is Some ==> {
                let choice = request.tool_choice->0;
                &&& config->0 is Some
                &&& choice is Auto <==> config->0->0.mode == 1
                &&& choice is Required || choice is Specific <==> config->0->0.mode == 2
                &&& choice is Never <==> config->0->0.mode == 3
                &&& choice is Specific ==> config->0->0.allowed_function_names
                    == choice->Specific_0
                &&& !(choice is Specific) ==> config->0->0.allowed_function_names.len() == 0
            }
        }),
{
}

/// How a choice of tools is put to the model, on its own.
pub proof fn law_calling_modes(choice: ToolChoiceView)
    ensures
        choice is Auto <==> completion::calling_config(choice).mode == 1,
        choice is Required || choice is Specific <==> completion::calling_config(choice).mode == 2,
        choice is Never <==> completion::calling_config(choice).mode == 3,
        choice is Specific ==> completion::calling_config(choice).allowed_function_names
            == choice->Specific_0,
        !(choice is Specific) ==> completion::calling_config(choice).allowed_function_names.len()
            == 0,
{
}

/// A request asks the model that it names, or else the default one, and nothing else is in it:
/// no cached content, no label, no safety setting and no armor.
pub proof fn law_request_asks_the_model(
    client: VertexClientView,
    default_model: Seq<char>,
    request: CompletionRequestView,
)
    requires
        completion::grpc_request(client, default_model, request) is Ok,
    ensures
        ({
            let sent = completion::grpc_request(client, default_model, request)->Ok_0;
            let model = if request.model is Some {
                request.model->0
            } else {
                default_model
            };
            let named_by_path = "projects/"@.is_prefix_of(model) || "publishers/"@.is_prefix_of(
                model,
            ) || "endpoints/"@.is_prefix_of(model);
            &&& named_by_path ==> sent.model == model
            &&& !named_by_path ==> sent.model == "projects/"@ + client.project + "/locations/"@
                + client.location + "/publishers/google/models/"@ + model
            &&& sent.cached_content.len() == 0
            &&& sent.labels.len() == 0
            &&& sent.safety_settings.len() == 0
            &&& sent.model_armor_config is None
        }),
{
}

/// The first message that cannot be sent decides why a request cannot be made. Where all can be
/// sent, it is a schema without a JSON form.
pub proof fn law_first_bad_message_is_reported(
    client: VertexClientView,
    default_model: Seq<char>,
    request: CompletionRequestView,
    k: int,
)
    ensures
        0 <= k < request.chat_history.len() && completion::message_content(
            request.chat_history[k],
        ) is Err && (forall|i: int|
            0 <= i < k ==> completion::message_content(#[trigger] request.chat_history[i]) is Ok)
            ==> completion::grpc_request(client, default_model, request) == RequestResult::Err(
            completion::message_content(request.chat_history[k])->Err_0,
        ),
        (forall|i: int|
            0 <= i < request.chat_history.len() ==> completion::message_content(
                #[trigger] request.chat_history[i],
            ) is Ok) && request.output_schema is Some && request.output_schema->0 is Err
            ==> completion::grpc_request(client, default_model, request) == RequestResult::Err(
            CompletionErrorView::RequestError(
                "Invalid output schema: "@ + request.output_schema->0->Err_0,
            ),
        ),
{
    let all = completion::history_contents(request.chat_history);
    assert(forall|i: int|
        0 <= i < all.len() ==> #[trigger] all[i] == completion::message_content(
            request.chat_history[i],
        ));
    model::lemma_collected_ok(all);
    if 0 <= k < request.chat_history.len() && completion::message_content(
        request.chat_history[k],
    ) is Err && (forall|i: int|
        0 <= i < k ==> completion::message_content(#[trigger] request.chat_history[i]) is Ok) {
        lemma_first_error(all, k);
    }
}

/// A sequence of results fails with its first error.
proof fn lemma_first_error<T, E>(results: Seq<Result<T, E>>, k: int)
    requires
        0 <= k < results.len(),
        results[k] is Err,
        forall|i: int| 0 <= i < k ==> (#[trigger] results[i]) is Ok,
    ensures
        model::collected(results) is Err,
        model::collected(results)->Err_0 == results[k]->Err_0,
{
    let before = results.take(k);
    model::lemma_collected_ok(before);
    assert forall|i: int| 0 <= i < before.len() implies (#[trigger] before[i]) is Ok by {
        assert(before[i] == results[i]);
    }
    model::lemma_collected_step(results, k);
    model::lemma_collected_error(results, k + 1);
}

/// A message of the user that can be sent has as many parts as it has pieces, in order, each what
/// its piece comes to on its own, under the role of the user.
pub proof fn law_user_message_is_sent_whole(content: Seq<UserContentView>)
    requires
        completion::message_content(MessageView::User(content)) is Ok,
    ensures
        ({
            let sent = completion::message_content(MessageView::User(content))->Ok_0;
            &&& sent.role == "user"@
            &&& sent.parts.len() == content.len()
            &&& forall|i: int|
                0 <= i < content.len() ==> completion::user_part(content[i]) == PartResult::Ok(
                    #[trigger] sent.parts[i],
                )
            &&& forall|i: int|
                0 <= i < content.len() && content[i] is Text ==> (#[trigger] sent.parts[i]).data
                    == Some(DataView::Text(content[i]->Text_0))
            &&& forall|i: int|
                0 <= i < content.len() && content[i] is Image ==> completion::image_part(
                    content[i]->Image_0,
                ) == PartResult::Ok(#[trigger] sent.parts[i])
            &&& forall|i: int|
                0 <= i < content.len() && content[i] is ToolResult ==> (
                #[trigger] sent.parts[i]).data is Some && sent.parts[i].data->0 is FunctionResponse
                    && sent.parts[i].data->0->FunctionResponse_0.name == content[i]->ToolResult_0.id
            &&& forall|i: int|
                0 <= i < content.len() ==> !(#[trigger] sent.parts[i]).thought
                    && sent.parts[i].thought_signature.len() == 0
        }),
{
    let all = completion::user_parts(content);
    model::lemma_collected_ok(all);
    let sent = completion::message_content(MessageView::User(content))->Ok_0;
    assert forall|i: int| 0 <= i < content.len() implies completion::user_part(content[i])
        == PartResult::Ok(#[trigger] sent.parts[i]) by {
        assert(all[i] == completion::user_part(content[i]));
    }
}

/// A message of the assistant that can be sent has as many parts as it has pieces, in order, each
/// what its piece comes to on its own, under the role of the model.
pub proof fn law_assistant_message_is_sent_whole(
    id: Option<Seq<char>>,
    content: Seq<AssistantContentView>,
)
    requires
        completion::message_content(MessageView::Assistant(id, content)) is Ok,
    ensures
        ({
            let sent = completion::message_content(MessageView::Assistant(id, content))->Ok_0;
            &&& sent.role == "model"@
            &&& sent.parts.len() == content.len()
            &&& forall|i: int|
                0 <= i < content.len() ==> completion::assistant_part(content[i]) == PartResult::Ok(
                    #[trigger] sent.parts[i],
                )
            &&& forall|i: int|
                0 <= i < content.len() ==> ((#[trigger] sent.parts[i]).thought
                    <==> content[i] is Reasoning)
            &&& forall|i: int|
                0 <= i < content.len() && content[i] is Text ==> (#[trigger] sent.parts[i]).data
                    == Some(DataView::Text(content[i]->Text_0))
        }),
{
    let all = completion::assistant_parts(content);
    model::lemma_collected_ok(all);
    let sent = completion::message_content(MessageView::Assistant(id, content))->Ok_0;
    assert forall|i: int| 0 <= i < content.len() implies completion::assistant_part(content[i])
        == PartResult::Ok(#[trigger] sent.parts[i]) by {
        assert(all[i] == completion::assistant_part(content[i]));
    }
}

/// A message can be sent exactly where each of its pieces can, and otherwise fails as its first
/// piece that cannot.
pub proof fn law_first_bad_piece_is_reported(
    user: Seq<UserContentView>,
    id: Option<Seq<char>>,
    assistant: Seq<AssistantContentView>,
    k: int,
)
    ensures
        (forall|i: int|
            0 <= i < user.len() ==> completion::user_part(#[trigger] user[i]) is Ok)
            ==> completion::message_content(MessageView::User(user)) is Ok,
        0 <= k < user.len() && completion::user_part(user[k]) is Err && (forall|i: int|
            0 <= i < k ==> completion::user_part(#[trigger] user[i]) is Ok)
            ==> completion::message_content(MessageView::User(user)) == ContentResult::Err(
            completion::user_part(user[k])->Err_0,
        ),
        (forall|i: int|
            0 <= i < assistant.len() ==> completion::assistant_part(#[trigger] assistant[i]) is Ok)
            ==> completion::message_content(MessageView::Assistant(id, assistant)) is Ok,
        0 <= k < assistant.len() && completion::assistant_part(assistant[k]) is Err && (forall|
            i: int,
        |
            0 <= i < k ==> completion::assistant_part(#[trigger] assistant[i]) is Ok)
            ==> completion::message_content(MessageView::Assistant(id, assistant))
            == ContentResult::Err(completion::assistant_part(assistant[k])->Err_0),
{
    let users = completion::user_parts(user);
    let assistants = completion::assistant_parts(assistant);
    model::lemma_collected_ok(users);
    model::lemma_collected_ok(assistants);
    assert(forall|i: int|
        0 <= i < users.len() ==> #[trigger] users[i] == completion::user_part(user[i]));
    assert(forall|i: int|
        0 <= i < assistants.len() ==> #[trigger] assistants[i] == completion::assistant_part(
            assistant[i],
        ));
    if 0 <= k < user.len() && completion::user_part(user[k]) is Err && (forall|i: int|
        0 <= i < k ==> completion::user_part(#[trigger] user[i]) is Ok) {
        lemma_first_error(users, k);
    }
    if 0 <= k < assistant.len() && completion::assistant_part(assistant[k]) is Err && (forall|
        i: int,
    |
        0 <= i < k ==> completion::assistant_part(#[trigger] assistant[i]) is Ok) {
        lemma_first_error(assistants, k);
    }
}

/// The whole conversation is sent: each message as a content with as many parts as the message
/// has pieces.
pub proof fn law_no_piece_of_the_conversation_is_lost(
    client: VertexClientView,
    default_model: Seq<char>,
    request: CompletionRequestView,
    i: int,
)
    requires
        completion::grpc_request(client, default_model, request) is Ok,
        0 <= i < request.chat_history.len(),
    ensures
        ({
            let contents = completion::grpc_request(client, default_model, request)->Ok_0.contents;
            &&& contents.len() == request.chat_history.len()
            &&& request.chat_history[i] is User ==> contents[i].role == "user"@
                && contents[i].parts.len() == request.chat_history[i]->User_0.len()
            &&& request.chat_history[i] is Assistant ==> contents[i].role == "model"@
                && contents[i].parts.len() == request.chat_history[i]->Assistant_1.len()
        }),
{
    completion::law_request_keeps_conversation(client, default_model, request);
    let content = completion::grpc_request(client, default_model, request)->Ok_0.contents[i];
    assert(completion::message_content(request.chat_history[i]) == ContentResult::Ok(content));
    match request.chat_history[i] {
        MessageView::User(pieces) => law_user_message_is_sent_whole(pieces),
        MessageView::Assistant(id, pieces) => law_assistant_message_is_sent_whole(id, pieces),
    }
}

/// Text of the user is sent as it is, in a plain part. Sound, film and documents are refused.
pub proof fn law_user_text_is_sent(content: UserContentView)
    ensures
        content is Text ==> completion::user_part(content) == PartResult::Ok(
            PartView {
                data: Some(DataView::Text(content->Text_0)),
                thought: false,
                thought_signature: Seq::empty(),
            },
        ),
        content is Audio || content is Video || content is Document ==> completion::user_part(
            content,
        ) == PartResult::Err(
            CompletionErrorView::RequestError("Unsupported user content type"@),
        ),
{
}

/// What a tool returned is sent as a struct with the one field `output`. Where the text parses as
/// JSON, the field is the protobuf form of what it parses to, whatever kind of JSON that is; only
/// where it does not parse is the field the text itself.
pub proof fn law_tool_output_is_reported(id: Seq<char>, text: Seq<char>, parsed: Option<JsonView>)
    ensures
        ({
            let part = completion::tool_result_part(id, text, parsed);
            let response = part.data->0->FunctionResponse_0;
            let output = response.response->0[0].1;
            &&& part.data is Some
            &&& part.data->0 is FunctionResponse
            &&& !part.thought
            &&& part.thought_signature.len() == 0
            &&& response.name == id
            &&& response.response is Some
            &&& response.response->0.len() == 1
            &&& response.response->0[0].0 == "output"@
            &&& parsed is None ==> output == ValueView::String(text)
            &&& parsed is Some ==> output == value::json_to_value(parsed->0)
            &&& parsed is Some && parsed->0 is Null ==> output == ValueView::Null(0)
            &&& parsed is Some && parsed->0 is Bool ==> output == ValueView::Bool(parsed->0->Bool_0)
            &&& parsed is Some && parsed->0 is Number ==> output == ValueView::Number(
                value::number_bits(parsed->0->Number_0),
            )
            &&& parsed is Some && parsed->0 is String ==> output == ValueView::String(
                parsed->0->String_0,
            )
            &&& parsed is Some && parsed->0 is Array ==> output is List && output->List_0.len()
                == parsed->0->Array_0.len()
            &&& parsed is Some && parsed->0 is Object ==> output is Struct
                && output->Struct_0.len() == parsed->0->Object_0.len()
        }),
{
}

/// A number in JSON is the same number in protobuf.
pub proof fn law_numbers_keep_their_value(n: Number)
    ensures
        n is Float ==> value::number_bits(n) == n->Float_0,
        n is PosInt ==> value::number_bits(n) == value::integer_bits(n->PosInt_0 as int),
        n is NegInt ==> value::number_bits(n) == value::integer_bits(n->NegInt_0 as int),
{
}

/// Of a tool result the first piece is reported, under the ID of the call, as what reading it as
/// JSON comes to. An image in its place is refused.
pub proof fn law_tool_result_is_read_as_json(result: ToolResultView)
    requires
        result.content.len() > 0,
    ensures
        ({
            let sent = completion::user_part(UserContentView::ToolResult(result));
            &&& result.content[0] is Image ==> sent == PartResult::Err(
                CompletionErrorView::RequestError("Tool result content must be text"@),
            )
            &&& result.content[0] is Text ==> sent == PartResult::Ok(
                completion::tool_result_part(
                    result.id,
                    result.content[0]->Text_0,
                    json::parsed_contents(result.content[0]->Text_0),
                ),
            )
        }),
{
}

/// Whether Vertex AI takes an image of a media type.
pub proof fn law_images_that_are_taken(media_type: ImageMediaType)
    ensures
        completion::is_supported_image(media_type) <==> !(media_type is GIF || media_type is SVG),
{
}

/// An image is sent under its MIME type, as the URI or the bytes that it is given by, in a plain
/// part. Text is decoded first.
pub proof fn law_image_is_sent(image: ImageView)
    requires
        image.media_type is Some,
        !(image.media_type->0 is GIF || image.media_type->0 is SVG),
    ensures
        ({
            let sent = completion::user_part(UserContentView::Image(image));
            let part = sent->Ok_0;
            let mime_type = message::image_mime_type(image.media_type->0);
            let bytes = match image.data {
                SourceView::Raw(bytes) => Decoded::Ok(bytes),
                SourceView::Base64(text) => encoding::decoded_bytes(text),
                SourceView::String(text) => encoding::decoded_bytes(text),
                _ => Decoded::Ok(Seq::empty()),
            };
            &&& sent == completion::image_part(image)
            &&& sent is Ok <==> (image.data is Url || ((image.data is Raw || image.data is Base64
                || image.data is String) && bytes is Ok))
            &&& sent is Ok ==> !part.thought && part.thought_signature.len() == 0
                && part.data is Some
            &&& image.data is Url ==> part.data->0 is FileData
                && part.data->0->FileData_0.file_uri == image.data->Url_0
                && part.data->0->FileData_0.mime_type == mime_type
            &&& sent is Ok && !(image.data is Url) ==> part.data->0 is InlineData
                && Decoded::Ok(part.data->0->InlineData_0.data) == bytes
                && part.data->0->InlineData_0.mime_type == mime_type
            &&& bytes is Err ==> sent == PartResult::Err(bytes->Err_0)
            &&& image.data is Unknown ==> sent == PartResult::Err(
                CompletionErrorView::RequestError("Image content has no body"@),
            )
            &&& image.data is Other ==> sent == PartResult::Err(
                CompletionErrorView::RequestError("Unsupported document source kind"@),
            )
        }),
{
}

/// An image without a media type, or of one that Vertex AI does not take, is refused.
pub proof fn law_image_is_refused(image: ImageView)
    ensures
        image.media_type is None ==> completion::user_part(UserContentView::Image(image))
            == PartResult::Err(
            CompletionErrorView::RequestError("Media type for image is required for Vertex"@),
        ),
        image.media_type == Some(ImageMediaType::GIF) ==> completion::user_part(
            UserContentView::Image(image),
        ) == PartResult::Err(
            CompletionErrorView::RequestError("Unsupported image media type "@ + "GIF"@),
        ),
        image.media_type == Some(ImageMediaType::SVG) ==> completion::user_part(
            UserContentView::Image(image),
        ) == PartResult::Err(
            CompletionErrorView::RequestError("Unsupported image media type "@ + "SVG"@),
        ),
{
}

/// The bytes of a decoded image are sent under its MIME type.
pub proof fn law_decoded_image_is_attached(
    media_type: ImageMediaType,
    decoded: Result<Seq<u8>, CompletionErrorView>,
)
    ensures
        ({
            let sent = completion::decoded_image(media_type, decoded);
            &&& sent is Ok <==> decoded is Ok
            &&& decoded is Err ==> sent->Err_0 == decoded->Err_0
            &&& decoded is Ok ==> {
                &&& sent->Ok_0.data is Some
                &&& sent->Ok_0.data->0 is InlineData
                &&& sent->Ok_0.data->0->InlineData_0.data == decoded->Ok_0
                &&& sent->Ok_0.data->0->InlineData_0.mime_type == message::image_mime_type(
                    media_type,
                )
                &&& !sent->Ok_0.thought
                &&& sent->Ok_0.thought_signature.len() == 0
            }
        }),
{
}

/// Text of the assistant is sent as it is, in a plain part. Images of the assistant are refused.
pub proof fn law_assistant_text_is_sent(content: AssistantContentView)
    ensures
        content is Text ==> completion::assistant_part(content) == PartResult::Ok(
            PartView {
                data: Some(DataView::Text(content->Text_0)),
                thought: false,
                thought_signature: Seq::empty(),
            },
        ),
        content is Image ==> completion::assistant_part(content) == PartResult::Err(
            CompletionErrorView::RequestError("Unsupported assistant content type"@),
        ),
{
}

/// A tool call is sent as a call of its function, with every argument and the bytes of its
/// signature. Arguments that are no object, and then a signature that is no base64, are refused.
pub proof fn law_tool_call_is_sent(call: ToolCallView)
    ensures
        ({
            let sent = completion::assistant_part(AssistantContentView::ToolCall(call));
            let signature = encoding::signature_bytes(call.signature);
            let part = sent->Ok_0;
            let function = part.data->0->FunctionCall_0;
            &&& sent is Ok <==> call.arguments is Object && signature is Ok
            &&& !(call.arguments is Object) ==> sent == PartResult::Err(
                CompletionErrorView::RequestError(
                    "Expected a JSON object for google.protobuf.Struct"@,
                ),
            )
            &&& call.arguments is Object && signature is Err ==> sent == PartResult::Err(
                signature->Err_0,
            )
            &&& sent is Ok ==> {
                &&& part.data is Some
                &&& part.data->0 is FunctionCall
                &&& !part.thought
                &&& part.thought_signature == signature->Ok_0
                &&& function.name == call.name
                &&& function.args is Some
                &&& function.args->0.len() == call.arguments->Object_0.len()
                &&& forall|i: int|
                    0 <= i < call.arguments->Object_0.len() ==> (
                    #[trigger] function.args->0[i]).0 == call.arguments->Object_0[i].0
                        && function.args->0[i].1 == value::json_to_value(
                        call.arguments->Object_0[i].1,
                    )
            }
        }),
{
}

/// Reasoning is sent as a thought: what can be shown of it, a line break between each two blocks,
/// with the bytes of its signature.
pub proof fn law_reasoning_is_sent(content: AssistantContentView)
    requires
        content is Reasoning,
    ensures
        ({
            let blocks = content->Reasoning_0.content;
            let sent = completion::assistant_part(content);
            let signature = encoding::signature_bytes(message::first_signature_of(blocks));
            &&& sent is Ok <==> signature is Ok
            &&& signature is Err ==> sent->Err_0 == signature->Err_0
            &&& sent is Ok ==> {
                &&& sent->Ok_0.thought
                &&& sent->Ok_0.thought_signature == signature->Ok_0
                &&& sent->Ok_0.data == Some(
                    DataView::Text(text::joined(message::shown_texts(blocks), "\n"@)),
                )
            }
        }),
{
}

} // verus!
