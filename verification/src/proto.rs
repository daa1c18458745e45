//! The messages of `google.cloud.aiplatform.v1.PredictionService` that this library sends and
//! receives, and what each of them stands for.
use crate::json;
use crate::model;
use vstd::prelude::*;

verus! {

/// `google.protobuf.Struct`: named values. No two have the same name.
#[derive(Debug, PartialEq)]
pub struct Struct {
    pub fields: Vec<(String, ProtoValue)>,
}

/// `google.protobuf.ListValue`.
#[derive(Debug, PartialEq)]
pub struct ListValue {
    pub values: Vec<ProtoValue>,
}

/// The kinds of `google.protobuf.Value`.
#[derive(Debug, PartialEq)]
pub enum Kind {
    /// Null. The number is that of the enumeration `NullValue`, whose one value is 0.
    NullValue(i32),
    /// A number, as its IEEE 754 binary64 bit pattern.
    NumberValue(u64),
    StringValue(String),
    BoolValue(bool),
    StructValue(Struct),
    ListValue(ListValue),
}

/// `google.protobuf.Value`.
#[derive(Debug, PartialEq)]
pub struct ProtoValue {
    pub kind: Option<Kind>,
}

/// What a `ProtoValue` stands for.
pub enum ValueView {
    Unset,
    Null(i32),
    Number(u64),
    String(Seq<char>),
    Bool(bool),
    Struct(Seq<(Seq<char>, ValueView)>),
    List(Seq<ValueView>),
}

/// What a `Struct` stands for: its fields in order.
pub type StructView = Seq<(Seq<char>, ValueView)>;

/// What `v` stands for.
pub open spec fn value_view(v: ProtoValue) -> ValueView
    decreases v,
{
    match v.kind {
        None => ValueView::Unset,
        Some(Kind::NullValue(n)) => ValueView::Null(n),
        Some(Kind::NumberValue(bits)) => ValueView::Number(bits),
        Some(Kind::StringValue(s)) => ValueView::String(s@),
        Some(Kind::BoolValue(b)) => ValueView::Bool(b),
        Some(Kind::StructValue(st)) => ValueView::Struct(
            Seq::new(
                st.fields@.len(),
                |i: int|
                    if 0 <= i < st.fields@.len() {
                        (st.fields@[i].0@, value_view(st.fields@[i].1))
                    } else {
                        (Seq::empty(), ValueView::Unset)
                    },
            ),
        ),
        Some(Kind::ListValue(list)) => ValueView::List(
            Seq::new(
                list.values@.len(),
                |i: int|
                    if 0 <= i < list.values@.len() {
                        value_view(list.values@[i])
                    } else {
                        ValueView::Unset
                    },
            ),
        ),
    }
}

impl View for ProtoValue {
    type V = ValueView;

    open spec fn view(&self) -> ValueView {
        value_view(*self)
    }
}

impl View for Struct {
    type V = StructView;

    open spec fn view(&self) -> StructView {
        self.fields@.map_values(|f: (String, ProtoValue)| (f.0@, f.1@))
    }
}

impl View for ListValue {
    type V = Seq<ValueView>;

    open spec fn view(&self) -> Seq<ValueView> {
        model::views(self.values@)
    }
}

/// A value that holds a struct stands for what the struct stands for, and likewise for a list.
pub proof fn lemma_value_view(v: ProtoValue)
    ensures
        v.kind matches Some(Kind::StructValue(st)) ==> v@ == ValueView::Struct(st@),
        v.kind matches Some(Kind::ListValue(list)) ==> v@ == ValueView::List(list@),
{
    match v.kind {
        Some(Kind::StructValue(st)) => {
            assert(v@->Struct_0 =~= st@);
        },
        Some(Kind::ListValue(list)) => {
            assert(v@->List_0 =~= list@);
        },
        _ => {},
    }
}

/// Whether no struct inside `v` has a field name twice.
pub open spec fn valid_value(v: ValueView) -> bool
    decreases v,
{
    match v {
        ValueView::Struct(fields) => {
            &&& json::distinct_keys(fields)
            &&& forall|i: int| 0 <= i < fields.len() ==> valid_value((#[trigger] fields[i]).1)
        },
        ValueView::List(values) => forall|i: int|
            0 <= i < values.len() ==> valid_value(#[trigger] values[i]),
        _ => true,
    }
}

/// Whether neither the struct nor one inside it has a field name twice.
pub open spec fn valid_struct(fields: StructView) -> bool {
    valid_value(ValueView::Struct(fields))
}

/// Bytes of a media type.
#[derive(Debug, PartialEq)]
pub struct Blob {
    pub mime_type: String,
    pub data: Vec<u8>,
}

/// What a `Blob` stands for.
pub struct BlobView {
    pub mime_type: Seq<char>,
    pub data: Seq<u8>,
}

impl View for Blob {
    type V = BlobView;

    open spec fn view(&self) -> BlobView {
        BlobView { mime_type: self.mime_type@, data: self.data@ }
    }
}

/// A reference to a file of a media type.
#[derive(Debug, PartialEq)]
pub struct FileData {
    pub mime_type: String,
    pub file_uri: String,
}

/// What a `FileData` stands for.
pub struct FileDataView {
    pub mime_type: Seq<char>,
    pub file_uri: Seq<char>,
}

impl View for FileData {
    type V = FileDataView;

    open spec fn view(&self) -> FileDataView {
        FileDataView { mime_type: self.mime_type@, file_uri: self.file_uri@ }
    }
}

/// A function that the model wants called.
#[derive(Debug, PartialEq)]
pub struct FunctionCall {
    pub name: String,
    pub args: Option<Struct>,
}

/// What a `FunctionCall` stands for.
pub struct FunctionCallView {
    pub name: Seq<char>,
    pub args: Option<StructView>,
}

impl View for FunctionCall {
    type V = FunctionCallView;

    open spec fn view(&self) -> FunctionCallView {
        FunctionCallView { name: self.name@, args: model::opt_view(self.args) }
    }
}

/// What a function that the model wanted called returned.
#[derive(Debug, PartialEq)]
pub struct FunctionResponse {
    pub name: String,
    pub response: Option<Struct>,
}

/// What a `FunctionResponse` stands for.
pub struct FunctionResponseView {
    pub name: Seq<char>,
    pub response: Option<StructView>,
}

impl View for FunctionResponse {
    type V = FunctionResponseView;

    open spec fn view(&self) -> FunctionResponseView {
        FunctionResponseView { name: self.name@, response: model::opt_view(self.response) }
    }
}

/// What a part carries.
#[derive(Debug, PartialEq)]
pub enum Data {
    Text(String),
    InlineData(Blob),
    FileData(FileData),
    FunctionCall(FunctionCall),
    FunctionResponse(FunctionResponse),
}

/// What a `Data` stands for.
pub enum DataView {
    Text(Seq<char>),
    InlineData(BlobView),
    FileData(FileDataView),
    FunctionCall(FunctionCallView),
    FunctionResponse(FunctionResponseView),
}

impl View for Data {
    type V = DataView;

    open spec fn view(&self) -> DataView {
        match self {
            Data::Text(text) => DataView::Text(text@),
            Data::InlineData(blob) => DataView::InlineData(blob@),
            Data::FileData(file) => DataView::FileData(file@),
            Data::FunctionCall(call) => DataView::FunctionCall(call@),
            Data::FunctionResponse(response) => DataView::FunctionResponse(response@),
        }
    }
}

/// A piece of a message.
#[derive(Debug, PartialEq)]
pub struct Part {
    pub data: Option<Data>,
    /// Whether the part is a thought of the model.
    pub thought: bool,
    pub thought_signature: Vec<u8>,
}

/// What a `Part` stands for.
pub struct PartView {
    pub data: Option<DataView>,
    pub thought: bool,
    pub thought_signature: Seq<u8>,
}

impl View for Part {
    type V = PartView;

    open spec fn view(&self) -> PartView {
        PartView {
            data: model::opt_view(self.data),
            thought: self.thought,
            thought_signature: self.thought_signature@,
        }
    }
}

/// A part that carries `data` and is no thought.
pub open spec fn plain_part(data: DataView) -> PartView {
    PartView { data: Some(data), thought: false, thought_signature: Seq::empty() }
}

impl Part {
    /// A part that carries `data` and is no thought.
    pub fn plain(data: Data) -> (r: Part)
        ensures
            r@ == plain_part(data@),
    {
        Part { data: Some(data), thought: false, thought_signature: Vec::new() }
    }
}

/// A message: who speaks, and what.
#[derive(Debug, PartialEq)]
pub struct Content {
    pub role: String,
    pub parts: Vec<Part>,
}

/// What a `Content` stands for.
pub struct ContentView {
    pub role: Seq<char>,
    pub parts: Seq<PartView>,
}

impl View for Content {
    type V = ContentView;

    open spec fn view(&self) -> ContentView {
        ContentView { role: self.role@, parts: model::views(self.parts@) }
    }
}

/// A function that the model may want called.
#[derive(Debug, PartialEq)]
pub struct FunctionDeclaration {
    pub name: String,
    pub description: String,
    pub parameters_json_schema: Option<ProtoValue>,
}

/// What a `FunctionDeclaration` stands for.
pub struct FunctionDeclarationView {
    pub name: Seq<char>,
    pub description: Seq<char>,
    pub parameters_json_schema: Option<ValueView>,
}

impl View for FunctionDeclaration {
    type V = FunctionDeclarationView;

    open spec fn view(&self) -> FunctionDeclarationView {
        FunctionDeclarationView {
            name: self.name@,
            description: self.description@,
            parameters_json_schema: model::opt_view(self.parameters_json_schema),
        }
    }
}

/// A set of functions.
#[derive(Debug, PartialEq)]
pub struct Tool {
    pub function_declarations: Vec<FunctionDeclaration>,
}

impl View for Tool {
    type V = Seq<FunctionDeclarationView>;

    open spec fn view(&self) -> Seq<FunctionDeclarationView> {
        model::views(self.function_declarations@)
    }
}

/// `FunctionCallingConfig.Mode.AUTO`: the model decides whether to call a function.
pub const MODE_AUTO: i32 = 1;

/// `FunctionCallingConfig.Mode.ANY`: the model has to call a function.
pub const MODE_ANY: i32 = 2;

/// `FunctionCallingConfig.Mode.NONE`: the model must not call a function.
pub const MODE_NONE: i32 = 3;

/// How the model may use functions.
#[derive(Debug, PartialEq)]
pub struct FunctionCallingConfig {
    pub mode: i32,
    pub allowed_function_names: Vec<String>,
}

/// What a `FunctionCallingConfig` stands for.
pub struct FunctionCallingConfigView {
    pub mode: i32,
    pub allowed_function_names: Seq<Seq<char>>,
}

impl View for FunctionCallingConfig {
    type V = FunctionCallingConfigView;

    open spec fn view(&self) -> FunctionCallingConfigView {
        FunctionCallingConfigView {
            mode: self.mode,
            allowed_function_names: model::views(self.allowed_function_names@),
        }
    }
}

/// How the model may use tools.
#[derive(Debug, PartialEq)]
pub struct ToolConfig {
    pub function_calling_config: Option<FunctionCallingConfig>,
}

impl View for ToolConfig {
    type V = Option<FunctionCallingConfigView>;

    open spec fn view(&self) -> Option<FunctionCallingConfigView> {
        model::opt_view(self.function_calling_config)
    }
}

/// How the model generates.
#[derive(Debug, PartialEq)]
pub struct GenerationConfig {
    /// The temperature, as its IEEE 754 binary32 bit pattern.
    pub temperature: Option<u32>,
    pub max_output_tokens: Option<i32>,
    pub response_mime_type: String,
    pub response_json_schema: Option<ProtoValue>,
}

/// What a `GenerationConfig` stands for.
pub struct GenerationConfigView {
    pub temperature: Option<u32>,
    pub max_output_tokens: Option<i32>,
    pub response_mime_type: Seq<char>,
    pub response_json_schema: Option<ValueView>,
}

impl View for GenerationConfig {
    type V = GenerationConfigView;

    open spec fn view(&self) -> GenerationConfigView {
        GenerationConfigView {
            temperature: self.temperature,
            max_output_tokens: self.max_output_tokens,
            response_mime_type: self.response_mime_type@,
            response_json_schema: model::opt_view(self.response_json_schema),
        }
    }
}

/// How harmful content of a category is blocked. The numbers are those of the enumerations
/// `HarmCategory`, `HarmBlockThreshold` and `HarmBlockMethod`.
#[derive(Clone, Copy, Debug, PartialEq, Eq, Structural)]
pub struct SafetySetting {
    pub category: i32,
    pub threshold: i32,
    pub method: i32,
}

/// The Model Armor templates that screen prompts and responses.
#[derive(Debug, PartialEq, Eq)]
pub struct ModelArmorConfig {
    pub prompt_template_name: String,
    pub response_template_name: String,
}

/// What a `ModelArmorConfig` stands for.
pub struct ModelArmorConfigView {
    pub prompt_template_name: Seq<char>,
    pub response_template_name: Seq<char>,
}

impl View for ModelArmorConfig {
    type V = ModelArmorConfigView;

    open spec fn view(&self) -> ModelArmorConfigView {
        ModelArmorConfigView {
            prompt_template_name: self.prompt_template_name@,
            response_template_name: self.response_template_name@,
        }
    }
}

/// A request to generate content.
#[derive(Debug, PartialEq)]
pub struct GenerateContentRequest {
    pub model: String,
    pub contents: Vec<Content>,
    pub system_instruction: Option<Content>,
    pub cached_content: String,
    pub tools: Vec<Tool>,
    pub tool_config: Option<ToolConfig>,
    pub labels: Vec<(String, String)>,
    pub safety_settings: Vec<SafetySetting>,
    pub model_armor_config: Option<ModelArmorConfig>,
    pub generation_config: Option<GenerationConfig>,
}

/// What a `GenerateContentRequest` stands for.
pub struct GenerateContentRequestView {
    pub model: Seq<char>,
    pub contents: Seq<ContentView>,
    pub system_instruction: Option<ContentView>,
    pub cached_content: Seq<char>,
    pub tools: Seq<Seq<FunctionDeclarationView>>,
    pub tool_config: Option<Option<FunctionCallingConfigView>>,
    pub labels: Seq<(Seq<char>, Seq<char>)>,
    pub safety_settings: Seq<SafetySetting>,
    pub model_armor_config: Option<ModelArmorConfigView>,
    pub generation_config: Option<GenerationConfigView>,
}

impl View for GenerateContentRequest {
    type V = GenerateContentRequestView;

    open spec fn view(&self) -> GenerateContentRequestView {
        GenerateContentRequestView {
            model: self.model@,
            contents: model::views(self.contents@),
            system_instruction: model::opt_view(self.system_instruction),
            cached_content: self.cached_content@,
            tools: model::views(self.tools@),
            tool_config: model::opt_view(self.tool_config),
            labels: self.labels@.map_values(|l: (String, String)| (l.0@, l.1@)),
            safety_settings: self.safety_settings@,
            model_armor_config: model::opt_view(self.model_armor_config),
            generation_config: model::opt_view(self.generation_config),
        }
    }
}

/// One of the answers of the model.
#[derive(Debug, PartialEq)]
pub struct Candidate {
    pub content: Option<Content>,
    /// The number of the enumeration `FinishReason`. 0 is `FINISH_REASON_UNSPECIFIED`.
    pub finish_reason: i32,
}

/// What a `Candidate` stands for.
pub struct CandidateView {
    pub content: Option<ContentView>,
    pub finish_reason: i32,
}

impl View for Candidate {
    type V = CandidateView;

    open spec fn view(&self) -> CandidateView {
        CandidateView { content: model::opt_view(self.content), finish_reason: self.finish_reason }
    }
}

/// How many tokens a request took.
#[derive(Clone, Copy, Debug, PartialEq, Eq, Structural)]
pub struct UsageMetadata {
    pub prompt_token_count: i32,
    pub candidates_token_count: i32,
    pub total_token_count: i32,
    pub cached_content_token_count: i32,
}

/// The answer to a request to generate content.
#[derive(Debug, PartialEq)]
pub struct GenerateContentResponse {
    pub candidates: Vec<Candidate>,
    pub usage_metadata: Option<UsageMetadata>,
    pub model_version: String,
    pub response_id: String,
}

/// What a `GenerateContentResponse` stands for.
pub struct GenerateContentResponseView {
    pub candidates: Seq<CandidateView>,
    pub usage_metadata: Option<UsageMetadata>,
    pub model_version: Seq<char>,
    pub response_id: Seq<char>,
}

impl View for GenerateContentResponse {
    type V = GenerateContentResponseView;

    open spec fn view(&self) -> GenerateContentResponseView {
        GenerateContentResponseView {
            candidates: model::views(self.candidates@),
            usage_metadata: self.usage_metadata,
            model_version: self.model_version@,
            response_id: self.response_id@,
        }
    }
}

/// A response with nothing in it.
pub open spec fn empty_response() -> GenerateContentResponseView {
    GenerateContentResponseView {
        candidates: Seq::empty(),
        usage_metadata: None,
        model_version: Seq::empty(),
        response_id: Seq::empty(),
    }
}

impl Default for GenerateContentResponse {
    fn default() -> (r: GenerateContentResponse)
        ensures
            r@ == empty_response(),
    {
        let r = GenerateContentResponse {
            candidates: Vec::new(),
            usage_metadata: None,
            model_version: String::new(),
            response_id: String::new(),
        };
        assert(r@.candidates =~= Seq::empty());
        r
    }
}

/// A request to embed content.
#[derive(Debug, PartialEq)]
pub struct EmbedContentRequest {
    pub model: Option<String>,
    pub content: Option<Content>,
    pub task_type: Option<i32>,
    pub title: Option<String>,
    pub output_dimensionality: Option<i32>,
    pub auto_truncate: Option<bool>,
}

/// What an `EmbedContentRequest` stands for.
pub struct EmbedContentRequestView {
    pub model: Option<Seq<char>>,
    pub content: Option<ContentView>,
    pub task_type: Option<i32>,
    pub title: Option<Seq<char>>,
    pub output_dimensionality: Option<i32>,
    pub auto_truncate: Option<bool>,
}

impl View for EmbedContentRequest {
    type V = EmbedContentRequestView;

    open spec fn view(&self) -> EmbedContentRequestView {
        EmbedContentRequestView {
            model: model::opt_view(self.model),
            content: model::opt_view(self.content),
            task_type: self.task_type,
            title: model::opt_view(self.title),
            output_dimensionality: self.output_dimensionality,
            auto_truncate: self.auto_truncate,
        }
    }
}

/// The answer to a request to embed content.
#[derive(Debug, PartialEq)]
pub struct EmbedContentResponse {
    /// The embedding's components, each as its IEEE 754 binary32 bit pattern.
    pub embedding: Option<Vec<u32>>,
    pub usage_metadata: Option<UsageMetadata>,
}

/// What an `EmbedContentResponse` stands for.
pub struct EmbedContentResponseView {
    pub embedding: Option<Seq<u32>>,
    pub usage_metadata: Option<UsageMetadata>,
}

impl View for EmbedContentResponse {
    type V = EmbedContentResponseView;

    open spec fn view(&self) -> EmbedContentResponseView {
        EmbedContentResponseView {
            embedding: model::opt_view(self.embedding),
            usage_metadata: self.usage_metadata,
        }
    }
}

} // verus!
