//! Chat messages, independent of any provider.
use crate::json::{Json, JsonView};
use crate::model;
use crate::proto::GenerateContentResponse;
use crate::text;
use rig::message::MimeType;
use vstd::prelude::*;

verus! {

/// One or more items.
#[derive(Debug, PartialEq)]
pub struct OneOrMany<T> {
    first: T,
    rest: Vec<T>,
}

/// A list that ought to hold something is empty.
#[derive(Clone, Copy, Debug, PartialEq, Eq, Structural)]
pub struct EmptyListError;

impl<T> OneOrMany<T> {
    /// The items in order.
    pub closed spec fn items(&self) -> Seq<T> {
        seq![self.first] + self.rest@
    }

    /// There always is an item.
    pub proof fn lemma_not_empty(&self)
        ensures
            self.items().len() > 0,
    {
    }

    /// Just `item`.
    pub fn one(item: T) -> (r: OneOrMany<T>)
        ensures
            r.items() == seq![item],
    {
        let r = OneOrMany { first: item, rest: Vec::new() };
        assert(r.items() =~= seq![item]);
        r
    }

    /// All of `items`, unless there are none.
    pub fn many(items: Vec<T>) -> (r: Result<OneOrMany<T>, EmptyListError>)
        ensures
            r is Err <==> items@.len() == 0,
            r matches Ok(some) ==> some.items() == items@,
    {
        let mut items = items;
        if items.len() == 0 {
            return Err(EmptyListError);
        }
        let ghost all = items@;
        let first = items.remove(0);
        let r = OneOrMany { first, rest: items };
        assert(r.items() =~= all);
        Ok(r)
    }

    /// The first item.
    pub fn first(&self) -> (r: &T)
        ensures
            *r == self.items()[0],
    {
        &self.first
    }

    /// The items in order.
    pub fn into_vec(self) -> (r: Vec<T>)
        ensures
            r@ == self.items(),
    {
        let mut r = self.rest;
        r.insert(0, self.first);
        assert(r@ =~= self.items());
        r
    }
}

impl<T: View> View for OneOrMany<T> {
    type V = Seq<T::V>;

    open spec fn view(&self) -> Seq<T::V> {
        model::views(self.items())
    }
}

/// Text.
#[derive(Debug, PartialEq)]
pub struct Text {
    pub text: String,
}

impl View for Text {
    type V = Seq<char>;

    open spec fn view(&self) -> Seq<char> {
        self.text@
    }
}

/// The media types of images.
#[derive(Clone, Copy, Debug, PartialEq, Eq, Structural)]
pub enum ImageMediaType {
    JPEG,
    PNG,
    GIF,
    WEBP,
    HEIC,
    HEIF,
    SVG,
}

/// The MIME type of images of a media type.
pub open spec fn image_mime_type(media_type: ImageMediaType) -> Seq<char> {
    match media_type {
        ImageMediaType::JPEG => "image/jpeg"@,
        ImageMediaType::PNG => "image/png"@,
        ImageMediaType::GIF => "image/gif"@,
        ImageMediaType::WEBP => "image/webp"@,
        ImageMediaType::HEIC => "image/heic"@,
        ImageMediaType::HEIF => "image/heif"@,
        ImageMediaType::SVG => "image/svg+xml"@,
    }
}

/// The name of a media type of images.
pub open spec fn image_type_name(media_type: ImageMediaType) -> Seq<char> {
    match media_type {
        ImageMediaType::JPEG => "JPEG"@,
        ImageMediaType::PNG => "PNG"@,
        ImageMediaType::GIF => "GIF"@,
        ImageMediaType::WEBP => "WEBP"@,
        ImageMediaType::HEIC => "HEIC"@,
        ImageMediaType::HEIF => "HEIF"@,
        ImageMediaType::SVG => "SVG"@,
    }
}

impl ImageMediaType {
    /// The MIME type.
    pub fn to_mime_type(&self) -> (r: &'static str)
        ensures
            r@ == image_mime_type(*self),
    {
        match self {
            ImageMediaType::JPEG => "image/jpeg",
            ImageMediaType::PNG => "image/png",
            ImageMediaType::GIF => "image/gif",
            ImageMediaType::WEBP => "image/webp",
            ImageMediaType::HEIC => "image/heic",
            ImageMediaType::HEIF => "image/heif",
            ImageMediaType::SVG => "image/svg+xml",
        }
    }

    /// The name of the media type.
    pub fn name(&self) -> (r: &'static str)
        ensures
            r@ == image_type_name(*self),
    {
        match self {
            ImageMediaType::JPEG => "JPEG",
            ImageMediaType::PNG => "PNG",
            ImageMediaType::GIF => "GIF",
            ImageMediaType::WEBP => "WEBP",
            ImageMediaType::HEIC => "HEIC",
            ImageMediaType::HEIF => "HEIF",
            ImageMediaType::SVG => "SVG",
        }
    }
}

/// The media type of images that a MIME type stands for.
pub open spec fn mime_image_type(mime_type: Seq<char>) -> Option<ImageMediaType> {
    if mime_type == "image/jpeg"@ {
        Some(ImageMediaType::JPEG)
    } else if mime_type == "image/png"@ {
        Some(ImageMediaType::PNG)
    } else if mime_type == "image/gif"@ {
        Some(ImageMediaType::GIF)
    } else if mime_type == "image/webp"@ {
        Some(ImageMediaType::WEBP)
    } else if mime_type == "image/heic"@ {
        Some(ImageMediaType::HEIC)
    } else if mime_type == "image/heif"@ {
        Some(ImageMediaType::HEIF)
    } else if mime_type == "image/svg+xml"@ {
        Some(ImageMediaType::SVG)
    } else {
        None
    }
}

/// How the media type that a MIME type stands for, if any, is shown.
pub uninterp spec fn media_type_shown(mime_type: Seq<char>) -> Seq<char>;

/// `MediaType::from_mime_type` of the `rig-core` crate: the media type of images that the MIME
/// type stands for, and how the result is shown by its `Debug`. How a result that is no image is
/// shown is left unsaid, but for that it is a function of the MIME type alone.
#[verifier::external_body]
pub(crate) fn media_type_of(mime_type: &str) -> (r: (Option<ImageMediaType>, String))
    ensures
        r.0 == mime_image_type(mime_type@),
        r.1@ == media_type_shown(mime_type@),
{
    let media_type = rig::message::MediaType::from_mime_type(mime_type);
    let shown = format!("{media_type:?}");
    let Some(rig::message::MediaType::Image(image)) = media_type else { return (None, shown) };
    let image = match image {
        rig::message::ImageMediaType::JPEG => ImageMediaType::JPEG,
        rig::message::ImageMediaType::PNG => ImageMediaType::PNG,
        rig::message::ImageMediaType::GIF => ImageMediaType::GIF,
        rig::message::ImageMediaType::WEBP => ImageMediaType::WEBP,
        rig::message::ImageMediaType::HEIC => ImageMediaType::HEIC,
        rig::message::ImageMediaType::HEIF => ImageMediaType::HEIF,
        rig::message::ImageMediaType::SVG => ImageMediaType::SVG,
    };
    (Some(image), shown)
}

/// A MIME type of images stands for the media type that it is the MIME type of.
pub proof fn law_image_type_survives_mime_type(media_type: ImageMediaType)
    ensures
        mime_image_type(image_mime_type(media_type)) == Some(media_type),
{
    reveal_strlit("image/jpeg");
    reveal_strlit("image/png");
    reveal_strlit("image/gif");
    reveal_strlit("image/webp");
    reveal_strlit("image/heic");
    reveal_strlit("image/heif");
    reveal_strlit("image/svg+xml");
    assert("image/jpeg"@[6] == 'j');
    assert("image/png"@[6] == 'p');
    assert("image/gif"@[6] == 'g');
    assert("image/webp"@[6] == 'w');
    assert("image/heic"@[9] == 'c');
    assert("image/heif"@[9] == 'f');
    assert("image/svg+xml"@[6] == 's');
    assert("image/heic"@[6] == 'h');
    assert("image/heif"@[6] == 'h');
}

/// How closely an image is to be looked at.
#[derive(Clone, Copy, Debug, PartialEq, Eq, Structural)]
pub enum ImageDetail {
    Low,
    High,
    Auto,
}

/// Where the data of an image or a document comes from.
#[derive(Debug, PartialEq)]
pub enum DocumentSourceKind {
    /// A URL.
    Url(String),
    /// Base64 text.
    Base64(String),
    /// The bytes themselves.
    Raw(Vec<u8>),
    /// A string.
    String(String),
    /// There is no data.
    Unknown,
    /// A source that this library does not know.
    Other,
}

/// What a `DocumentSourceKind` stands for.
pub enum SourceView {
    Url(Seq<char>),
    Base64(Seq<char>),
    Raw(Seq<u8>),
    String(Seq<char>),
    Unknown,
    Other,
}

impl View for DocumentSourceKind {
    type V = SourceView;

    open spec fn view(&self) -> SourceView {
        match self {
            DocumentSourceKind::Url(s) => SourceView::Url(s@),
            DocumentSourceKind::Base64(s) => SourceView::Base64(s@),
            DocumentSourceKind::Raw(bytes) => SourceView::Raw(bytes@),
            DocumentSourceKind::String(s) => SourceView::String(s@),
            DocumentSourceKind::Unknown => SourceView::Unknown,
            DocumentSourceKind::Other => SourceView::Other,
        }
    }
}

/// An image.
#[derive(Debug, PartialEq)]
pub struct Image {
    pub data: DocumentSourceKind,
    pub media_type: Option<ImageMediaType>,
    pub detail: Option<ImageDetail>,
}

/// What an `Image` stands for.
pub struct ImageView {
    pub data: SourceView,
    pub media_type: Option<ImageMediaType>,
    pub detail: Option<ImageDetail>,
}

impl View for Image {
    type V = ImageView;

    open spec fn view(&self) -> ImageView {
        ImageView { data: self.data@, media_type: self.media_type, detail: self.detail }
    }
}

/// A piece of what a tool returned.
#[derive(Debug, PartialEq)]
pub enum ToolResultContent {
    Text(Text),
    Image(Image),
}

/// What a `ToolResultContent` stands for.
pub enum ToolResultContentView {
    Text(Seq<char>),
    Image(ImageView),
}

impl View for ToolResultContent {
    type V = ToolResultContentView;

    open spec fn view(&self) -> ToolResultContentView {
        match self {
            ToolResultContent::Text(text) => ToolResultContentView::Text(text@),
            ToolResultContent::Image(image) => ToolResultContentView::Image(image@),
        }
    }
}

/// What a tool returned.
#[derive(Debug, PartialEq)]
pub struct ToolResult {
    pub id: String,
    pub content: OneOrMany<ToolResultContent>,
}

/// What a `ToolResult` stands for.
pub struct ToolResultView {
    pub id: Seq<char>,
    pub content: Seq<ToolResultContentView>,
}

impl View for ToolResult {
    type V = ToolResultView;

    open spec fn view(&self) -> ToolResultView {
        ToolResultView { id: self.id@, content: self.content@ }
    }
}

/// A piece of what the user says.
#[derive(Debug, PartialEq)]
pub enum UserContent {
    Text(Text),
    ToolResult(ToolResult),
    Image(Image),
    Audio,
    Video,
    Document,
}

/// What a `UserContent` stands for.
pub enum UserContentView {
    Text(Seq<char>),
    ToolResult(ToolResultView),
    Image(ImageView),
    Audio,
    Video,
    Document,
}

impl View for UserContent {
    type V = UserContentView;

    open spec fn view(&self) -> UserContentView {
        match self {
            UserContent::Text(text) => UserContentView::Text(text@),
            UserContent::ToolResult(result) => UserContentView::ToolResult(result@),
            UserContent::Image(image) => UserContentView::Image(image@),
            UserContent::Audio => UserContentView::Audio,
            UserContent::Video => UserContentView::Video,
            UserContent::Document => UserContentView::Document,
        }
    }
}

/// A function to call, with its arguments.
#[derive(Debug, PartialEq)]
pub struct ToolFunction {
    pub name: String,
    pub arguments: Json,
}

/// A call of a tool that the assistant wants.
#[derive(Debug, PartialEq)]
pub struct ToolCall {
    pub id: String,
    pub function: ToolFunction,
    pub signature: Option<String>,
}

/// What a `ToolCall` stands for.
pub struct ToolCallView {
    pub id: Seq<char>,
    pub name: Seq<char>,
    pub arguments: JsonView,
    pub signature: Option<Seq<char>>,
}

impl View for ToolCall {
    type V = ToolCallView;

    open spec fn view(&self) -> ToolCallView {
        ToolCallView {
            id: self.id@,
            name: self.function.name@,
            arguments: self.function.arguments@,
            signature: model::opt_view(self.signature),
        }
    }
}

/// A block of reasoning.
#[derive(Debug, PartialEq)]
pub enum ReasoningContent {
    /// Plain text, which the provider may have signed.
    Text { text: String, signature: Option<String> },
    /// What the provider encrypted.
    Encrypted(String),
    /// What the provider redacted.
    Redacted { data: String },
    /// A summary.
    Summary(String),
}

/// What a `ReasoningContent` stands for.
pub enum ReasoningContentView {
    Text { text: Seq<char>, signature: Option<Seq<char>> },
    Encrypted(Seq<char>),
    Redacted { data: Seq<char> },
    Summary(Seq<char>),
}

impl View for ReasoningContent {
    type V = ReasoningContentView;

    open spec fn view(&self) -> ReasoningContentView {
        match self {
            ReasoningContent::Text { text, signature } => ReasoningContentView::Text {
                text: text@,
                signature: model::opt_view(*signature),
            },
            ReasoningContent::Encrypted(s) => ReasoningContentView::Encrypted(s@),
            ReasoningContent::Redacted { data } => ReasoningContentView::Redacted { data: data@ },
            ReasoningContent::Summary(s) => ReasoningContentView::Summary(s@),
        }
    }
}

/// What the assistant thought.
#[derive(Debug, PartialEq)]
pub struct Reasoning {
    pub id: Option<String>,
    pub content: Vec<ReasoningContent>,
}

/// What a `Reasoning` stands for.
pub struct ReasoningView {
    pub id: Option<Seq<char>>,
    pub content: Seq<ReasoningContentView>,
}

impl View for Reasoning {
    type V = ReasoningView;

    open spec fn view(&self) -> ReasoningView {
        ReasoningView { id: model::opt_view(self.id), content: model::views(self.content@) }
    }
}

/// The text of a block of reasoning that can be shown: all but what is encrypted.
pub open spec fn shown_text(block: ReasoningContentView) -> Option<Seq<char>> {
    match block {
        ReasoningContentView::Text { text, .. } => Some(text),
        ReasoningContentView::Summary(summary) => Some(summary),
        ReasoningContentView::Redacted { data } => Some(data),
        ReasoningContentView::Encrypted(_) => None,
    }
}

/// The texts of blocks of reasoning that can be shown, in order.
pub open spec fn shown_texts(blocks: Seq<ReasoningContentView>) -> Seq<Seq<char>>
    decreases blocks.len(),
{
    if blocks.len() == 0 {
        Seq::empty()
    } else {
        match shown_text(blocks.last()) {
            Some(text) => shown_texts(blocks.drop_last()).push(text),
            None => shown_texts(blocks.drop_last()),
        }
    }
}

/// The signature of the first block of plain text that has one.
pub open spec fn first_signature_of(blocks: Seq<ReasoningContentView>) -> Option<Seq<char>>
    decreases blocks.len(),
{
    if blocks.len() == 0 {
        None
    } else {
        match blocks[0] {
            ReasoningContentView::Text { signature: Some(signature), .. } => Some(signature),
            _ => first_signature_of(blocks.skip(1)),
        }
    }
}

impl Reasoning {
    /// A single block of plain text, with its signature where there is one.
    pub fn new_with_signature(input: &str, signature: Option<String>) -> (r: Reasoning)
        ensures
            r@.id is None,
            r@.content == seq![
                ReasoningContentView::Text { text: input@, signature: model::opt_view(signature) },
            ],
    {
        let block = ReasoningContent::Text { text: input.to_string(), signature };
        let ghost shown = block@;
        let mut content: Vec<ReasoningContent> = Vec::new();
        content.push(block);
        assert(model::views(content@) =~= seq![shown]);
        Reasoning { id: None, content }
    }

    /// What can be shown of the reasoning, a line break between each two blocks.
    pub fn display_text(&self) -> (r: String)
        ensures
            r@ == text::joined(shown_texts(self@.content), "\n"@),
    {
        let mut shown: Vec<String> = Vec::new();
        let ghost all = self@.content;
        let mut i: usize = 0;
        while i < self.content.len()
            invariant
                i <= self.content@.len(),
                all == self@.content,
                model::views(shown@) == shown_texts(all.take(i as int)),
            decreases self.content@.len() - i,
        {
            let ghost before = shown@;
            proof {
                assert(all.take(i + 1).drop_last() =~= all.take(i as int));
                assert(all.take(i + 1).last() == self.content@[i as int]@);
            }
            match &self.content[i] {
                ReasoningContent::Text { text, .. } => {
                    shown.push(text.clone());
                    assert(model::views(shown@) =~= model::views(before).push(text@));
                },
                ReasoningContent::Summary(summary) => {
                    shown.push(summary.clone());
                    assert(model::views(shown@) =~= model::views(before).push(summary@));
                },
                ReasoningContent::Redacted { data } => {
                    shown.push(data.clone());
                    assert(model::views(shown@) =~= model::views(before).push(data@));
                },
                ReasoningContent::Encrypted(_) => {},
            }
            i += 1;
        }
        assert(all.take(self.content@.len() as int) =~= all);
        text::join(&shown, "\n")
    }

    /// The signature of the first block of plain text that has one.
    pub fn first_signature(&self) -> (r: Option<&str>)
        ensures
            model::opt_view(r) == first_signature_of(self@.content),
    {
        let ghost all = self@.content;
        assert(all.skip(0) =~= all);
        let mut i: usize = 0;
        while i < self.content.len()
            invariant
                i <= self.content@.len(),
                all == self@.content,
                first_signature_of(all) == first_signature_of(all.skip(i as int)),
            decreases self.content@.len() - i,
        {
            proof {
                assert(all.skip(i as int)[0] == self.content@[i as int]@);
                assert(all.skip(i as int).skip(1) =~= all.skip(i + 1));
            }
            match &self.content[i] {
                ReasoningContent::Text { signature: Some(signature), .. } => {
                    return Some(signature.as_str());
                },
                _ => {},
            }
            i += 1;
        }
        None
    }
}

/// A piece of what the assistant says.
#[derive(Debug, PartialEq)]
pub enum AssistantContent {
    Text(Text),
    ToolCall(ToolCall),
    Reasoning(Reasoning),
    Image(Image),
}

/// What an `AssistantContent` stands for.
pub enum AssistantContentView {
    Text(Seq<char>),
    ToolCall(ToolCallView),
    Reasoning(ReasoningView),
    Image(ImageView),
}

impl View for AssistantContent {
    type V = AssistantContentView;

    open spec fn view(&self) -> AssistantContentView {
        match self {
            AssistantContent::Text(text) => AssistantContentView::Text(text@),
            AssistantContent::ToolCall(call) => AssistantContentView::ToolCall(call@),
            AssistantContent::Reasoning(reasoning) => AssistantContentView::Reasoning(reasoning@),
            AssistantContent::Image(image) => AssistantContentView::Image(image@),
        }
    }
}

/// A message of a chat.
#[allow(inconsistent_fields)]
#[derive(Debug, PartialEq)]
pub enum Message {
    User { content: OneOrMany<UserContent> },
    Assistant { id: Option<String>, content: OneOrMany<AssistantContent> },
}

/// What a `Message` stands for.
pub enum MessageView {
    User(Seq<UserContentView>),
    Assistant(Option<Seq<char>>, Seq<AssistantContentView>),
}

impl View for Message {
    type V = MessageView;

    open spec fn view(&self) -> MessageView {
        match self {
            Message::User { content } => MessageView::User(content@),
            Message::Assistant { id, content } => MessageView::Assistant(
                model::opt_view(*id),
                content@,
            ),
        }
    }
}

/// A tool that the assistant may want called.
#[derive(Debug, PartialEq)]
pub struct ToolDefinition {
    pub name: String,
    pub description: String,
    pub parameters: Json,
}

/// What a `ToolDefinition` stands for.
pub struct ToolDefinitionView {
    pub name: Seq<char>,
    pub description: Seq<char>,
    pub parameters: JsonView,
}

impl View for ToolDefinition {
    type V = ToolDefinitionView;

    open spec fn view(&self) -> ToolDefinitionView {
        ToolDefinitionView {
            name: self.name@,
            description: self.description@,
            parameters: self.parameters@,
        }
    }
}

/// Whether the assistant is to call a tool.
#[derive(Debug, PartialEq)]
pub enum ToolChoice {
    /// It decides.
    Auto,
    /// It must not.
    Never,
    /// It has to.
    Required,
    /// It has to call one of these.
    Specific { function_names: Vec<String> },
}

/// What a `ToolChoice` stands for.
pub enum ToolChoiceView {
    Auto,
    Never,
    Required,
    Specific(Seq<Seq<char>>),
}

impl View for ToolChoice {
    type V = ToolChoiceView;

    open spec fn view(&self) -> ToolChoiceView {
        match self {
            ToolChoice::Auto => ToolChoiceView::Auto,
            ToolChoice::Never => ToolChoiceView::Never,
            ToolChoice::Required => ToolChoiceView::Required,
            ToolChoice::Specific { function_names } => ToolChoiceView::Specific(
                model::views(function_names@),
            ),
        }
    }
}

/// A request for a completion.
#[derive(Debug, PartialEq)]
pub struct CompletionRequest {
    /// The model to ask, where it is not the default one.
    pub model: Option<String>,
    pub preamble: Option<String>,
    pub chat_history: OneOrMany<Message>,
    pub tools: Vec<ToolDefinition>,
    /// The temperature, as its IEEE 754 binary32 bit pattern.
    pub temperature: Option<u32>,
    pub max_tokens: Option<u64>,
    pub tool_choice: Option<ToolChoice>,
    /// The JSON form of the schema that the output is to follow, or why the schema has none.
    pub output_schema: Option<Result<Json, String>>,
}

/// What a `CompletionRequest` stands for.
pub struct CompletionRequestView {
    pub model: Option<Seq<char>>,
    pub preamble: Option<Seq<char>>,
    pub chat_history: Seq<MessageView>,
    pub tools: Seq<ToolDefinitionView>,
    pub temperature: Option<u32>,
    pub max_tokens: Option<u64>,
    pub tool_choice: Option<ToolChoiceView>,
    pub output_schema: Option<Result<JsonView, Seq<char>>>,
}

impl View for CompletionRequest {
    type V = CompletionRequestView;

    open spec fn view(&self) -> CompletionRequestView {
        CompletionRequestView {
            model: model::opt_view(self.model),
            preamble: model::opt_view(self.preamble),
            chat_history: self.chat_history@,
            tools: model::views(self.tools@),
            temperature: self.temperature,
            max_tokens: self.max_tokens,
            tool_choice: model::opt_view(self.tool_choice),
            output_schema: match self.output_schema {
                Some(schema) => Some(model::result_view(schema)),
                None => None,
            },
        }
    }
}

/// How many tokens a completion took.
#[derive(Clone, Copy, Debug, PartialEq, Eq, Structural)]
pub struct Usage {
    pub input_tokens: u64,
    pub output_tokens: u64,
    pub total_tokens: u64,
    pub cached_input_tokens: u64,
}

/// A completion: what the assistant says, and the response that it comes from.
#[derive(Debug, PartialEq)]
pub struct CompletionResponse {
    pub choice: OneOrMany<AssistantContent>,
    pub usage: Usage,
    pub raw_response: GenerateContentResponse,
    pub message_id: Option<String>,
}

} // verus!
