//! What a value stands for shows every field of it.
use crate::error::CompletionError;
use crate::json::Json;
use crate::message::{
    AssistantContent, CompletionRequest, Image, Message, Reasoning,
    ReasoningContent, ToolCall, ToolChoice, ToolDefinition, ToolResult, ToolResultContent,
    UserContent,
};
use crate::model;
use crate::proto::{
    Blob, Candidate, Content, Data, EmbedContentRequest, EmbedContentResponse, FileData,
    FunctionCall, FunctionCallingConfig, FunctionDeclaration, FunctionResponse,
    GenerateContentRequest, GenerateContentResponse, GenerationConfig, ModelArmorConfig, Part,
    ProtoValue, Struct, Tool, ToolConfig,
};
use crate::vertex::client::{
    AuthHeaderCache, AuthHeaders, AuthSource, CredentialsStep, VertexAuth, VertexClientBuilder,
    VertexClientPlan, VertexGrpcEndpoint,
};
use crate::vertex::embedding::{Embedding, EmbeddingBatch, EmbeddingError};
use crate::vertex::streaming::RawStreamingChoice;
use vstd::prelude::*;

verus! {

/// Two lists of values that stand for the same have the same length, and values that stand for
/// the same, one for one.
pub proof fn law_views_show_every_item<T: View>(items: Seq<T>, i: int)
    ensures
        model::views(items).len() == items.len(),
        0 <= i < items.len() ==> model::views(items)[i] == items[i]@,
{
}

/// An optional value, and a result, stand for what is in them.
pub proof fn law_views_show_options_and_results<T: View, E: View>(
    item: Option<T>,
    result: Result<T, E>,
)
    ensures
        model::opt_view(item) is Some <==> item is Some,
        item is Some ==> model::opt_view(item)->0 == item->0@,
        model::result_view(result) is Ok <==> result is Ok,
        result is Ok ==> model::result_view(result)->Ok_0 == result->Ok_0@,
        result is Err ==> model::result_view(result)->Err_0 == result->Err_0@,
{
}

/// A request to generate content shows all that is sent.
pub proof fn law_view_of_a_request(request: GenerateContentRequest, i: int)
    ensures
        request@.model == request.model@,
        request@.contents.len() == request.contents@.len(),
        0 <= i < request.contents@.len() ==> request@.contents[i] == request.contents@[i]@,
        request@.system_instruction is Some <==> request.system_instruction is Some,
        request.system_instruction is Some ==> request@.system_instruction->0
            == request.system_instruction->0@,
        request@.cached_content == request.cached_content@,
        request@.tools.len() == request.tools@.len(),
        0 <= i < request.tools@.len() ==> request@.tools[i] == request.tools@[i]@,
        request@.tool_config is Some <==> request.tool_config is Some,
        request.tool_config is Some ==> request@.tool_config->0 == request.tool_config->0@,
        request@.labels.len() == request.labels@.len(),
        0 <= i < request.labels@.len() ==> request@.labels[i] == (
            request.labels@[i].0@,
            request.labels@[i].1@,
        ),
        request@.safety_settings == request.safety_settings@,
        request@.model_armor_config is Some <==> request.model_armor_config is Some,
        request.model_armor_config is Some ==> request@.model_armor_config->0
            == request.model_armor_config->0@,
        request@.generation_config is Some <==> request.generation_config is Some,
        request.generation_config is Some ==> request@.generation_config->0
            == request.generation_config->0@,
{
}

/// The settings in a request show all that is asked for.
pub proof fn law_views_of_settings(
    config: GenerationConfig,
    armor: ModelArmorConfig,
    tool: Tool,
    declaration: FunctionDeclaration,
    tools: ToolConfig,
    calling: FunctionCallingConfig,
    i: int,
)
    ensures
        config@.temperature == config.temperature,
        config@.max_output_tokens == config.max_output_tokens,
        config@.response_mime_type == config.response_mime_type@,
        config@.response_json_schema is Some <==> config.response_json_schema is Some,
        config.response_json_schema is Some ==> config@.response_json_schema->0
            == config.response_json_schema->0@,
        armor@.prompt_template_name == armor.prompt_template_name@,
        armor@.response_template_name == armor.response_template_name@,
        tool@.len() == tool.function_declarations@.len(),
        0 <= i < tool.function_declarations@.len() ==> tool@[i] == tool.function_declarations@[i]@,
        declaration@.name == declaration.name@,
        declaration@.description == declaration.description@,
        declaration@.parameters_json_schema is Some <==> declaration.parameters_json_schema is Some,
        declaration.parameters_json_schema is Some ==> declaration@.parameters_json_schema->0
            == declaration.parameters_json_schema->0@,
        tools@ is Some <==> tools.function_calling_config is Some,
        tools.function_calling_config is Some ==> tools@->0 == tools.function_calling_config->0@,
        calling@.mode == calling.mode,
        calling@.allowed_function_names.len() == calling.allowed_function_names@.len(),
        0 <= i < calling.allowed_function_names@.len() ==> calling@.allowed_function_names[i]
            == calling.allowed_function_names@[i]@,
{
}

/// A message and its parts show all that is said.
pub proof fn law_views_of_content(content: Content, part: Part, i: int)
    ensures
        content@.role == content.role@,
        content@.parts.len() == content.parts@.len(),
        0 <= i < content.parts@.len() ==> content@.parts[i] == content.parts@[i]@,
        part@.data is Some <==> part.data is Some,
        part.data is Some ==> part@.data->0 == part.data->0@,
        part@.thought == part.thought,
        part@.thought_signature == part.thought_signature@,
{
}

/// What a part carries shows what it is and all of it.
pub proof fn law_views_of_data(
    data: Data,
    blob: Blob,
    file: FileData,
    call: FunctionCall,
    response: FunctionResponse,
)
    ensures
        data is Text ==> data@ is Text && data@->Text_0 == data->Text_0@,
        data is InlineData ==> data@ is InlineData && data@->InlineData_0 == data->InlineData_0@,
        data is FileData ==> data@ is FileData && data@->FileData_0 == data->FileData_0@,
        data is FunctionCall ==> data@ is FunctionCall && data@->FunctionCall_0
            == data->FunctionCall_0@,
        data is FunctionResponse ==> data@ is FunctionResponse && data@->FunctionResponse_0
            == data->FunctionResponse_0@,
        blob@.mime_type == blob.mime_type@,
        blob@.data == blob.data@,
        file@.mime_type == file.mime_type@,
        file@.file_uri == file.file_uri@,
        call@.name == call.name@,
        call@.args is Some <==> call.args is Some,
        call.args is Some ==> call@.args->0 == call.args->0@,
        response@.name == response.name@,
        response@.response is Some <==> response.response is Some,
        response.response is Some ==> response@.response->0 == response.response->0@,
{
}

/// A JSON value shows which kind it is and what it holds.
pub proof fn law_views_of_json(j: Json, i: int)
    ensures
        j is Null <==> j@ is Null,
        j is Bool ==> j@ is Bool && j@->Bool_0 == j->Bool_0,
        j is Number ==> j@ is Number && j@->Number_0 == j->Number_0,
        j is String ==> j@ is String && j@->String_0 == j->String_0@,
        j is Array ==> j@ is Array && j@->Array_0.len() == j->Array_0@.len(),
        j is Array && 0 <= i < j->Array_0@.len() ==> j@->Array_0[i] == j->Array_0@[i]@,
        j is Object ==> j@ is Object && j@->Object_0.len() == j->Object_0@.len(),
        j is Object && 0 <= i < j->Object_0@.len() ==> j@->Object_0[i] == (
            j->Object_0@[i].0@,
            j->Object_0@[i].1@,
        ),
{
}

/// A protobuf value shows which kind it is and what it holds, and a struct every field.
pub proof fn law_views_of_values(v: ProtoValue, st: Struct, i: int)
    ensures
        v.kind is None <==> v@ is Unset,
        v.kind is Some && v.kind->0 is NullValue ==> v@ is Null && v@->Null_0
            == v.kind->0->NullValue_0,
        v.kind is Some && v.kind->0 is NumberValue ==> v@ is Number && v@->Number_0
            == v.kind->0->NumberValue_0,
        v.kind is Some && v.kind->0 is StringValue ==> v@ is String && v@->String_0
            == v.kind->0->StringValue_0@,
        v.kind is Some && v.kind->0 is BoolValue ==> v@ is Bool && v@->Bool_0
            == v.kind->0->BoolValue_0,
        v.kind is Some && v.kind->0 is StructValue ==> v@ is Struct && v@->Struct_0
            == v.kind->0->StructValue_0@,
        v.kind is Some && v.kind->0 is ListValue ==> v@ is List && v@->List_0
            == v.kind->0->ListValue_0@,
        st@.len() == st.fields@.len(),
        0 <= i < st.fields@.len() ==> st@[i].0 == st.fields@[i].0@ && st@[i].1 == st.fields@[i].1@,
{
    crate::proto::lemma_value_view(v);
}

/// A response shows all that came.
pub proof fn law_views_of_responses(
    response: GenerateContentResponse,
    candidate: Candidate,
    embedded: EmbedContentResponse,
    i: int,
)
    ensures
        response@.candidates.len() == response.candidates@.len(),
        0 <= i < response.candidates@.len() ==> response@.candidates[i]
            == response.candidates@[i]@,
        response@.usage_metadata == response.usage_metadata,
        response@.model_version == response.model_version@,
        response@.response_id == response.response_id@,
        candidate@.content is Some <==> candidate.content is Some,
        candidate.content is Some ==> candidate@.content->0 == candidate.content->0@,
        candidate@.finish_reason == candidate.finish_reason,
        embedded@.embedding is Some <==> embedded.embedding is Some,
        embedded.embedding is Some ==> embedded@.embedding->0 == embedded.embedding->0@,
        embedded@.usage_metadata == embedded.usage_metadata,
{
}

/// A request for an embedding, an embedding and a batch show all that is in them.
pub proof fn law_views_of_embeddings(
    request: EmbedContentRequest,
    embedding: Embedding,
    batch: EmbeddingBatch,
    error: EmbeddingError,
    i: int,
)
    ensures
        request@.model is Some <==> request.model is Some,
        request.model is Some ==> request@.model->0 == request.model->0@,
        request@.content is Some <==> request.content is Some,
        request.content is Some ==> request@.content->0 == request.content->0@,
        request@.task_type == request.task_type,
        request@.title is Some <==> request.title is Some,
        request.title is Some ==> request@.title->0 == request.title->0@,
        request@.output_dimensionality == request.output_dimensionality,
        request@.auto_truncate == request.auto_truncate,
        embedding@.document == embedding.document@,
        embedding@.vec == embedding.vec@,
        batch@.embeddings.len() == batch.embeddings@.len(),
        0 <= i < batch.embeddings@.len() ==> batch@.embeddings[i] == batch.embeddings@[i]@,
        batch@.usage == batch.usage,
        error is ResponseError ==> error@ is ResponseError && error@->ResponseError_0
            == error->ResponseError_0@,
        error is ProviderError ==> error@ is ProviderError && error@->ProviderError_0
            == error->ProviderError_0@,
{
}

/// A completion request shows all that is asked for.
pub proof fn law_view_of_a_completion_request(request: CompletionRequest, i: int)
    ensures
        request@.model is Some <==> request.model is Some,
        request.model is Some ==> request@.model->0 == request.model->0@,
        request@.preamble is Some <==> request.preamble is Some,
        request.preamble is Some ==> request@.preamble->0 == request.preamble->0@,
        request@.chat_history.len() == request.chat_history.items().len(),
        0 <= i < request.chat_history.items().len() ==> request@.chat_history[i]
            == request.chat_history.items()[i]@,
        request@.tools.len() == request.tools@.len(),
        0 <= i < request.tools@.len() ==> request@.tools[i] == request.tools@[i]@,
        request@.temperature == request.temperature,
        request@.max_tokens == request.max_tokens,
        request@.tool_choice is Some <==> request.tool_choice is Some,
        request.tool_choice is Some ==> request@.tool_choice->0 == request.tool_choice->0@,
        request@.output_schema is Some <==> request.output_schema is Some,
        request.output_schema is Some && request.output_schema->0 is Ok
            ==> request@.output_schema->0 is Ok && request@.output_schema->0->Ok_0
            == request.output_schema->0->Ok_0@,
        request.output_schema is Some && request.output_schema->0 is Err
            ==> request@.output_schema->0 is Err && request@.output_schema->0->Err_0
            == request.output_schema->0->Err_0@,
{
}

/// A chat message and its pieces show who speaks and all that is said.
pub proof fn law_views_of_messages(
    message: Message,
    user: UserContent,
    assistant: AssistantContent,
    result: ToolResult,
    piece: ToolResultContent,
    i: int,
)
    ensures
        message is User ==> message@ is User && message@->User_0.len()
            == message->User_content.items().len(),
        message is User && 0 <= i < message->User_content.items().len() ==> message@->User_0[i]
            == message->User_content.items()[i]@,
        message is Assistant ==> message@ is Assistant && message@->Assistant_1.len()
            == message->Assistant_content.items().len(),
        message is Assistant && 0 <= i < message->Assistant_content.items().len()
            ==> message@->Assistant_1[i] == message->Assistant_content.items()[i]@,
        user is Text ==> user@ is Text && user@->Text_0 == user->Text_0.text@,
        user is ToolResult ==> user@ is ToolResult && user@->ToolResult_0 == user->ToolResult_0@,
        user is Image ==> user@ is Image && user@->Image_0 == user->Image_0@,
        user is Audio <==> user@ is Audio,
        user is Video <==> user@ is Video,
        user is Document <==> user@ is Document,
        assistant is Text ==> assistant@ is Text && assistant@->Text_0 == assistant->Text_0.text@,
        assistant is ToolCall ==> assistant@ is ToolCall && assistant@->ToolCall_0
            == assistant->ToolCall_0@,
        assistant is Reasoning ==> assistant@ is Reasoning && assistant@->Reasoning_0
            == assistant->Reasoning_0@,
        assistant is Image ==> assistant@ is Image && assistant@->Image_0 == assistant->Image_0@,
        result@.id == result.id@,
        result@.content.len() == result.content.items().len(),
        0 <= i < result.content.items().len() ==> result@.content[i] == result.content.items()[i]@,
        piece is Text ==> piece@ is Text && piece@->Text_0 == piece->Text_0.text@,
        piece is Image ==> piece@ is Image && piece@->Image_0 == piece->Image_0@,
{
}

/// Images, tool calls, reasoning and tools show all of themselves.
pub proof fn law_views_of_pieces(
    image: Image,
    call: ToolCall,
    reasoning: Reasoning,
    block: ReasoningContent,
    tool: ToolDefinition,
    choice: ToolChoice,
    i: int,
)
    ensures
        image@.media_type == image.media_type,
        image@.detail == image.detail,
        image.data is Url ==> image@.data is Url && image@.data->Url_0 == image.data->Url_0@,
        image.data is Base64 ==> image@.data is Base64 && image@.data->Base64_0
            == image.data->Base64_0@,
        image.data is Raw ==> image@.data is Raw && image@.data->Raw_0 == image.data->Raw_0@,
        image.data is String ==> image@.data is String && image@.data->String_0
            == image.data->String_0@,
        image.data is Unknown <==> image@.data is Unknown,
        image.data is Other <==> image@.data is Other,
        call@.id == call.id@,
        call@.name == call.function.name@,
        call@.arguments == call.function.arguments@,
        call@.signature is Some <==> call.signature is Some,
        call.signature is Some ==> call@.signature->0 == call.signature->0@,
        reasoning@.id is Some <==> reasoning.id is Some,
        reasoning.id is Some ==> reasoning@.id->0 == reasoning.id->0@,
        reasoning@.content.len() == reasoning.content@.len(),
        0 <= i < reasoning.content@.len() ==> reasoning@.content[i] == reasoning.content@[i]@,
        block is Text ==> block@ is Text && block@->Text_text == block->Text_text@ && (
        block@->Text_signature is Some <==> block->Text_signature is Some),
        block is Text && block->Text_signature is Some ==> block@->Text_signature->0
            == block->Text_signature->0@,
        block is Encrypted ==> block@ is Encrypted && block@->Encrypted_0 == block->Encrypted_0@,
        block is Redacted ==> block@ is Redacted && block@->data == block->data@,
        block is Summary ==> block@ is Summary && block@->Summary_0 == block->Summary_0@,
        tool@.name == tool.name@,
        tool@.description == tool.description@,
        tool@.parameters == tool.parameters@,
        choice is Auto <==> choice@ is Auto,
        choice is Never <==> choice@ is Never,
        choice is Required <==> choice@ is Required,
        choice is Specific <==> choice@ is Specific,
        choice is Specific ==> choice@->Specific_0.len() == choice->function_names@.len(),
        choice is Specific && 0 <= i < choice->function_names@.len() ==> choice@->Specific_0[i]
            == choice->function_names@[i]@,
{
}

/// What a stream yields, and why a completion failed, shows what it is and all of it.
pub proof fn law_views_of_pieces_and_errors(choice: RawStreamingChoice, error: CompletionError)
    ensures
        choice is Message ==> choice@ is Message && choice@->Message_0 == choice->Message_0@,
        choice is ReasoningDelta ==> choice@ is ReasoningDelta && choice@->reasoning
            == choice->reasoning@ && (choice@->id is Some <==> choice->id is Some),
        choice is ToolCall ==> choice@ is ToolCall && choice@->ToolCall_0 == choice->ToolCall_0@,
        choice is FinalResponse ==> choice@ is FinalResponse && choice@->FinalResponse_0
            == choice->FinalResponse_0@,
        error is RequestError ==> error@ is RequestError && error@->RequestError_0
            == error->RequestError_0@,
        error is ResponseError ==> error@ is ResponseError && error@->ResponseError_0
            == error->ResponseError_0@,
        error is ProviderError ==> error@ is ProviderError && error@->ProviderError_0
            == error->ProviderError_0@,
{
}

/// Builders, plans and endpoints show all that they were given.
pub proof fn law_views_of_builders(
    builder: VertexClientBuilder,
    plan: VertexClientPlan,
    endpoint: VertexGrpcEndpoint,
)
    ensures
        builder@.project is Some <==> builder.project is Some,
        builder.project is Some ==> builder@.project->0 == builder.project->0@,
        builder@.location is Some <==> builder.location is Some,
        builder.location is Some ==> builder@.location->0 == builder.location->0@,
        builder@.endpoint is Some <==> builder.endpoint is Some,
        builder.endpoint is Some ==> builder@.endpoint->0 == builder.endpoint->0@,
        builder@.credentials == builder.credentials,
        builder@.api_key is Some <==> builder.api_key is Some,
        builder.api_key is Some ==> builder@.api_key->0 == builder.api_key->0@,
        plan@.project == plan.project@,
        plan@.location == plan.location@,
        plan@.endpoint == plan.endpoint@,
        plan@.credentials == plan.credentials,
        plan@.api_key is Some <==> plan.api_key is Some,
        plan.api_key is Some ==> plan@.api_key->0 == plan.api_key->0@,
        endpoint is Global <==> endpoint@ is Global,
        endpoint is Regional ==> endpoint@ is Regional && endpoint@->region == endpoint->region@,
        endpoint is Custom ==> endpoint@ is Custom && endpoint@->url == endpoint->url@,
{
}

/// Ways to authenticate, and what is cached for them, show all of themselves.
pub proof fn law_views_of_authentication(
    auth: VertexAuth,
    source: AuthSource,
    step: CredentialsStep,
    cache: AuthHeaderCache,
    answer: AuthHeaders,
)
    ensures
        auth is ApiKey ==> auth@ is ApiKey && auth@->ApiKey_0 == auth->api_key@,
        auth is Credentials ==> auth@ is Credentials && auth@->Credentials_0 == auth->credentials,
        source is Known ==> source@ is Known && source@->Known_0 == source->Known_0@,
        source is DefaultCredentials <==> source@ is DefaultCredentials,
        step is Ready ==> step@ is Ready && step@->Ready_0 == step->Ready_0,
        step is BuildDefault <==> step@ is BuildDefault,
        step is Impersonate ==> step@ is Impersonate && step@->source == step->source
            && step@->target_principal == step->target_principal@,
        cache@.entity_tag == cache.entity_tag,
        cache@.headers is Some <==> cache.headers is Some,
        cache.headers is Some ==> cache@.headers->0 == crate::call_metadata::header_entries(
            cache.headers->0,
        ),
        answer is NotModified <==> answer@ is NotModified,
        answer is New ==> answer@ is New && answer@->entity_tag == answer->entity_tag
            && answer@->data == crate::call_metadata::header_entries(answer->data),
{
}

} // verus!
