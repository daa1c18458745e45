//! Responses that come in pieces, as a stream of what the assistant says.
use crate::encoding;
use crate::error::{CompletionError, CompletionErrorView};
use crate::message;
use crate::message::{AssistantContentView, ToolCall, ToolCallView};
use crate::model;
use crate::proto;
use crate::proto::{
    Data, DataView, GenerateContentResponse, GenerateContentResponseView, Part, PartView,
};
use crate::text;
use crate::vertex::completion;
use vstd::prelude::*;

verus! {

/// The response that a stream ends with.
pub type StreamingCompletionResponse = GenerateContentResponse;

/// A piece of what the assistant says.
#[derive(Debug, PartialEq)]
pub enum RawStreamingChoice {
    /// More text.
    Message(String),
    /// More of a thought.
    ReasoningDelta { id: Option<String>, reasoning: String },
    /// A call of a tool.
    ToolCall(ToolCall),
    /// The end, with the response that the stream ends with.
    FinalResponse(StreamingCompletionResponse),
}

/// What a `RawStreamingChoice` stands for.
pub enum RawStreamingChoiceView {
    Message(Seq<char>),
    ReasoningDelta { id: Option<Seq<char>>, reasoning: Seq<char> },
    ToolCall(ToolCallView),
    FinalResponse(GenerateContentResponseView),
}

impl View for RawStreamingChoice {
    type V = RawStreamingChoiceView;

    open spec fn view(&self) -> RawStreamingChoiceView {
        match self {
            RawStreamingChoice::Message(text) => RawStreamingChoiceView::Message(text@),
            RawStreamingChoice::ReasoningDelta { id, reasoning } =>
                RawStreamingChoiceView::ReasoningDelta {
                id: model::opt_view(*id),
                reasoning: reasoning@,
            },
            RawStreamingChoice::ToolCall(call) => RawStreamingChoiceView::ToolCall(call@),
            RawStreamingChoice::FinalResponse(response) => RawStreamingChoiceView::FinalResponse(
                response@,
            ),
        }
    }
}

/// What a stream yields: a piece, or the error that it breaks off with.
pub type StreamItem = Result<RawStreamingChoiceView, CompletionErrorView>;

/// What a stream receives: a response, or the text of the error in its place.
pub type StreamEvent = Result<GenerateContentResponseView, Seq<char>>;

/// The piece that a part of a response is. Parts other than text and function calls are none.
pub open spec fn part_choice(part: PartView) -> Option<RawStreamingChoiceView> {
    match part.data {
        Some(DataView::Text(text)) => Some(
            if part.thought {
                RawStreamingChoiceView::ReasoningDelta { id: None, reasoning: text }
            } else {
                RawStreamingChoiceView::Message(text)
            },
        ),
        Some(DataView::FunctionCall(call)) => Some(
            RawStreamingChoiceView::ToolCall(
                completion::requested_call(call, part.thought_signature),
            ),
        ),
        _ => None,
    }
}

/// The pieces that parts are, in order.
pub open spec fn part_choices(parts: Seq<PartView>) -> Seq<StreamItem>
    decreases parts.len(),
{
    if parts.len() == 0 {
        Seq::empty()
    } else {
        match part_choice(parts.last()) {
            Some(choice) => part_choices(parts.drop_last()).push(StreamItem::Ok(choice)),
            None => part_choices(parts.drop_last()),
        }
    }
}

/// The pieces that a response holds: those of its first candidate.
pub open spec fn response_choices(response: GenerateContentResponseView) -> Seq<StreamItem> {
    part_choices(completion::first_parts(response))
}

/// Whether a response is the last of its stream: its first candidate says why it is finished.
pub open spec fn is_final(response: GenerateContentResponseView) -> bool {
    response.candidates.len() > 0 && response.candidates[0].finish_reason != 0
}

/// The response that a stream ends with when nothing more comes: the last one, or else an empty
/// one.
pub open spec fn closing_response(
    last: Option<GenerateContentResponseView>,
) -> GenerateContentResponseView {
    match last {
        Some(response) => response,
        None => proto::empty_response(),
    }
}

/// What a stream yields in all, from what it receives in all: the pieces of each response, up to
/// the first final response or the first error. The end is a closing response, except after an
/// error.
pub open spec fn streamed(
    last: Option<GenerateContentResponseView>,
    events: Seq<StreamEvent>,
) -> Seq<StreamItem>
    decreases events.len(),
{
    if events.len() == 0 {
        seq![StreamItem::Ok(RawStreamingChoiceView::FinalResponse(closing_response(last)))]
    } else {
        match events[0] {
            Err(e) => seq![StreamItem::Err(CompletionErrorView::ProviderError(e))],
            Ok(response) => if is_final(response) {
                response_choices(response).push(
                    StreamItem::Ok(RawStreamingChoiceView::FinalResponse(response)),
                )
            } else {
                response_choices(response) + streamed(Some(response), events.drop_first())
            },
        }
    }
}

/// The base64 form of a signature: `None` where there are no bytes. Decoding gives the bytes
/// back.
pub fn encode_signature(bytes: &[u8]) -> (r: Option<String>)
    requires
        encoding::encodable(bytes@.len()),
    ensures
        model::opt_view(r) == encoding::signature_text(bytes@),
        encoding::signature_bytes(model::opt_view(r)) == encoding::Decoded::Ok(bytes@),
{
    encoding::encode_optional_base64(bytes)
}

/// Whether the signature of a part that is streamed with it has a base64 form that fits in
/// memory.
pub open spec fn streamable_part(part: PartView) -> bool {
    part.data matches Some(DataView::FunctionCall(_)) ==> encoding::encodable(
        part.thought_signature.len(),
    )
}

/// Whether the signatures that are streamed with a response have base64 forms that fit in memory.
pub open spec fn streamable(response: GenerateContentResponseView) -> bool {
    forall|i: int|
        0 <= i < completion::first_parts(response).len() ==> streamable_part(
            #[trigger] completion::first_parts(response)[i],
        )
}

/// A response whose bytes all have base64 forms that fit in memory can be streamed.
pub proof fn law_encodable_response_is_streamable(response: GenerateContentResponseView)
    requires
        completion::encodable_response(response),
    ensures
        streamable(response),
{
    let parts = completion::first_parts(response);
    assert forall|i: int| 0 <= i < parts.len() implies streamable_part(#[trigger] parts[i]) by {
        assert(completion::encodable_part(parts[i]));
    }
}

fn part_to_choice(part: &Part) -> (r: Option<RawStreamingChoice>)
    requires
        streamable_part(part@),
    ensures
        model::opt_view(r) == part_choice(part@),
{
    match &part.data {
        Some(Data::Text(text)) => Some(
            if part.thought {
                RawStreamingChoice::ReasoningDelta { id: None, reasoning: text.clone() }
            } else {
                RawStreamingChoice::Message(text.clone())
            },
        ),
        Some(Data::FunctionCall(call)) => Some(
            RawStreamingChoice::ToolCall(
                completion::call_to_tool_call(call, part.thought_signature.as_slice()),
            ),
        ),
        _ => None,
    }
}

/// What the items of a list stand for.
pub open spec fn item_views(items: Seq<Result<RawStreamingChoice, CompletionError>>) -> Seq<
    StreamItem,
> {
    items.map_values(|item: Result<RawStreamingChoice, CompletionError>| model::result_view(item))
}

fn response_to_choices(response: &GenerateContentResponse) -> (r: Vec<
    Result<RawStreamingChoice, CompletionError>,
>)
    requires
        streamable(response@),
    ensures
        item_views(r@) == response_choices(response@),
{
    let mut items: Vec<Result<RawStreamingChoice, CompletionError>> = Vec::new();
    assert(item_views(items@) =~= Seq::empty());
    if response.candidates.len() == 0 {
        return items;
    }
    assert(response@.candidates[0] == response.candidates@[0]@);
    let content = match &response.candidates[0].content {
        Some(content) => content,
        None => {
            return items;
        },
    };
    let ghost all = completion::first_parts(response@);
    let mut i: usize = 0;
    proof {
        assert(all == model::views(content.parts@));
        assert(all.take(0) =~= Seq::empty());
    }
    while i < content.parts.len()
        invariant
            i <= content.parts@.len(),
            all == model::views(content.parts@),
            all == completion::first_parts(response@),
            streamable(response@),
            item_views(items@) == part_choices(all.take(i as int)),
        decreases content.parts@.len() - i,
    {
        let ghost before = items@;
        proof {
            assert(all.take(i + 1).drop_last() =~= all.take(i as int));
            assert(all.take(i + 1).last() == content.parts@[i as int]@);
            assert(streamable_part(all[i as int]));
        }
        if let Some(choice) = part_to_choice(&content.parts[i]) {
            items.push(Ok(choice));
            assert(item_views(items@) =~= item_views(before).push(StreamItem::Ok(choice@)));
        }
        i += 1;
    }
    assert(all.take(i as int) =~= all);
    items
}

/// What a stream does next.
#[derive(Debug, PartialEq)]
pub struct StreamStep {
    /// What it yields now.
    pub items: Vec<Result<RawStreamingChoice, CompletionError>>,
    /// Whether that was all.
    pub done: bool,
}

/// A stream under way.
#[derive(Debug, PartialEq)]
pub struct CompletionStream {
    last: Option<StreamingCompletionResponse>,
}

impl View for CompletionStream {
    type V = Option<GenerateContentResponseView>;

    closed spec fn view(&self) -> Option<GenerateContentResponseView> {
        model::opt_view(self.last)
    }
}

/// What a stream yields when it receives something; `None` is the end of what it receives.
pub open spec fn step_items(
    last: Option<GenerateContentResponseView>,
    event: Option<StreamEvent>,
) -> Seq<StreamItem> {
    match event {
        None => seq![
            StreamItem::Ok(RawStreamingChoiceView::FinalResponse(closing_response(last))),
        ],
        Some(Err(e)) => seq![StreamItem::Err(CompletionErrorView::ProviderError(e))],
        Some(Ok(response)) => if is_final(response) {
            response_choices(response).push(
                StreamItem::Ok(RawStreamingChoiceView::FinalResponse(response)),
            )
        } else {
            response_choices(response)
        },
    }
}

/// Whether a stream goes on after it received something.
pub open spec fn goes_on(event: Option<StreamEvent>) -> bool {
    event matches Some(Ok(response)) && !is_final(response)
}

impl CompletionStream {
    /// A stream that has received nothing yet.
    pub fn new() -> (r: CompletionStream)
        ensures
            r@ is None,
    {
        CompletionStream { last: None }
    }

    /// What the stream yields when it receives a response, the text of an error, or the end.
    pub fn step(&mut self, event: Option<Result<GenerateContentResponse, String>>) -> (r:
        StreamStep)
        requires
            event matches Some(Ok(response)) ==> streamable(response@),
        ensures
            item_views(r.items@) == step_items(old(self)@, event_view(event)),
            r.done == !goes_on(event_view(event)),
            goes_on(event_view(event)) ==> final(self)@ == Some(event_view(event)->0->Ok_0),
    {
        match event {
            None => {
                let response = match self.last.take() {
                    Some(response) => response,
                    None => GenerateContentResponse::default(),
                };
                let items: Vec<Result<RawStreamingChoice, CompletionError>> = vec![
                    Ok(RawStreamingChoice::FinalResponse(response)),
                ];
                assert(item_views(items@) =~= step_items(old(self)@, event_view(event)));
                StreamStep { items, done: true }
            },
            Some(Err(e)) => {
                let items: Vec<Result<RawStreamingChoice, CompletionError>> = vec![
                    Err(CompletionError::ProviderError(e)),
                ];
                assert(item_views(items@) =~= step_items(old(self)@, event_view(event)));
                StreamStep { items, done: true }
            },
            Some(Ok(response)) => {
                let mut items = response_to_choices(&response);
                let ghost before = items@;
                assert(response@.candidates.len() > 0 ==> response@.candidates[0]
                    == response.candidates@[0]@);
                if response.candidates.len() > 0 && response.candidates[0].finish_reason != 0 {
                    let ghost closing = response@;
                    items.push(Ok(RawStreamingChoice::FinalResponse(response)));
                    assert(item_views(items@) =~= item_views(before).push(
                        StreamItem::Ok(RawStreamingChoiceView::FinalResponse(closing)),
                    ));
                    StreamStep { items, done: true }
                } else {
                    self.last = Some(response);
                    StreamStep { items, done: false }
                }
            },
        }
    }
}

/// What a stream receives, or the end of it, stands for.
pub open spec fn event_view(event: Option<Result<GenerateContentResponse, String>>) -> Option<
    StreamEvent,
> {
    match event {
        Some(event) => Some(model::result_view(event)),
        None => None,
    }
}

/// Step by step, a stream yields what it yields in all: what the first step yields, and then,
/// where it goes on, what it yields in all from there.
pub proof fn law_steps_make_the_stream(
    last: Option<GenerateContentResponseView>,
    events: Seq<StreamEvent>,
)
    ensures
        events.len() == 0 ==> streamed(last, events) == step_items(last, None),
        events.len() > 0 && goes_on(Some(events[0])) ==> streamed(last, events) == step_items(
            last,
            Some(events[0]),
        ) + streamed(Some(events[0]->Ok_0), events.drop_first()),
        events.len() > 0 && !goes_on(Some(events[0])) ==> streamed(last, events) == step_items(
            last,
            Some(events[0]),
        ),
{
}

/// Whether an item ends a stream.
pub open spec fn is_closing(item: StreamItem) -> bool {
    match item {
        Ok(choice) => choice is FinalResponse,
        Err(_) => true,
    }
}

proof fn lemma_choices_do_not_close(parts: Seq<PartView>)
    ensures
        forall|i: int|
            0 <= i < part_choices(parts).len() ==> !is_closing(#[trigger] part_choices(parts)[i]),
    decreases parts.len(),
{
    if parts.len() > 0 {
        let rest = part_choices(parts.drop_last());
        lemma_choices_do_not_close(parts.drop_last());
        assert forall|i: int| 0 <= i < part_choices(parts).len() implies !is_closing(
            #[trigger] part_choices(parts)[i],
        ) by {
            if i < rest.len() {
                assert(part_choices(parts)[i] == rest[i]);
            }
        }
    }
}

/// A stream ends with a final response or with an error, and neither comes before the end.
pub proof fn law_stream_ends_once(
    last: Option<GenerateContentResponseView>,
    events: Seq<StreamEvent>,
)
    ensures
        streamed(last, events).len() > 0,
        forall|i: int|
            0 <= i < streamed(last, events).len() ==> (is_closing(
                #[trigger] streamed(last, events)[i],
            ) <==> i == streamed(last, events).len() - 1),
    decreases events.len(),
{
    if events.len() > 0 {
        if let Ok(response) = events[0] {
            lemma_choices_do_not_close(completion::first_parts(response));
            if !is_final(response) {
                law_stream_ends_once(Some(response), events.drop_first());
            }
        }
    }
}

/// Where an error comes before any final response, the stream breaks off with that error.
pub proof fn law_stream_error_is_reported(
    last: Option<GenerateContentResponseView>,
    events: Seq<StreamEvent>,
    k: int,
)
    requires
        0 <= k < events.len(),
        events[k] is Err,
        forall|i: int| 0 <= i < k ==> goes_on(Some(#[trigger] events[i])),
    ensures
        streamed(last, events).last() == StreamItem::Err(
            CompletionErrorView::ProviderError(events[k]->Err_0),
        ),
    decreases k,
{
    if k > 0 {
        assert(goes_on(Some(events[0])));
        let rest = events.drop_first();
        assert forall|i: int| 0 <= i < k - 1 implies goes_on(Some(#[trigger] rest[i])) by {
            assert(rest[i] == events[i + 1]);
        }
        law_stream_error_is_reported(Some(events[0]->Ok_0), rest, k - 1);
        law_stream_ends_once(Some(events[0]->Ok_0), rest);
    }
}

/// Nothing that comes after the final response or the error matters.
pub proof fn law_stream_stops(
    last: Option<GenerateContentResponseView>,
    events: Seq<StreamEvent>,
    k: int,
)
    requires
        0 <= k < events.len(),
        !goes_on(Some(events[k])),
    ensures
        streamed(last, events) == streamed(last, events.take(k + 1)),
    decreases k,
{
    let first = events.take(k + 1);
    assert(first[0] == events[0]);
    if k > 0 && goes_on(Some(events[0])) {
        law_stream_stops(Some(events[0]->Ok_0), events.drop_first(), k - 1);
        assert(events.drop_first().take(k) =~= first.drop_first());
    }
}

/// A stream that no error and no final response cuts short ends with the last response that came,
/// or an empty one where none came.
pub proof fn law_stream_closes_with_the_last_response(
    last: Option<GenerateContentResponseView>,
    events: Seq<StreamEvent>,
)
    requires
        forall|i: int| 0 <= i < events.len() ==> goes_on(Some(#[trigger] events[i])),
    ensures
        streamed(last, events).last() == StreamItem::Ok(
            RawStreamingChoiceView::FinalResponse(
                if events.len() > 0 {
                    events.last()->Ok_0
                } else {
                    closing_response(last)
                },
            ),
        ),
    decreases events.len(),
{
    if events.len() > 0 {
        assert(goes_on(Some(events[0])));
        let rest = events.drop_first();
        assert forall|i: int| 0 <= i < rest.len() implies goes_on(Some(#[trigger] rest[i])) by {
            assert(rest[i] == events[i + 1]);
        }
        law_stream_closes_with_the_last_response(Some(events[0]->Ok_0), rest);
        law_stream_ends_once(Some(events[0]->Ok_0), rest);
    }
}

/// The piece of a stream that says what a piece of a completion says. Images are not streamed.
pub open spec fn content_choice(content: AssistantContentView) -> Option<RawStreamingChoiceView> {
    match content {
        AssistantContentView::Text(text) => Some(RawStreamingChoiceView::Message(text)),
        AssistantContentView::Reasoning(reasoning) => Some(
            RawStreamingChoiceView::ReasoningDelta {
                id: None,
                reasoning: text::joined(message::shown_texts(reasoning.content), "\n"@),
            },
        ),
        AssistantContentView::ToolCall(call) => Some(RawStreamingChoiceView::ToolCall(call)),
        AssistantContentView::Image(_) => None,
    }
}

/// The pieces of a stream that say what a completion says, in order.
pub open spec fn content_choices(contents: Seq<AssistantContentView>) -> Seq<StreamItem>
    decreases contents.len(),
{
    if contents.len() == 0 {
        Seq::empty()
    } else {
        match content_choice(contents.last()) {
            Some(choice) => content_choices(contents.drop_last()).push(StreamItem::Ok(choice)),
            None => content_choices(contents.drop_last()),
        }
    }
}

proof fn lemma_part_agrees(part: PartView)
    requires
        completion::part_content(part) is Ok,
    ensures
        part_choice(part) == content_choice(completion::part_content(part)->Ok_0),
{
    if let Some(DataView::Text(text)) = part.data {
        if part.thought {
            let blocks = completion::thought(
                text,
                encoding::signature_text(part.thought_signature),
            ).content;
            assert(blocks.drop_last() =~= Seq::empty());
            assert(message::shown_texts(blocks.drop_last()) =~= Seq::empty());
            assert(message::shown_texts(blocks) =~= seq![text]);
        }
    }
}

proof fn lemma_parts_agree(parts: Seq<PartView>)
    requires
        model::collected(completion::part_contents(parts)) is Ok,
    ensures
        part_choices(parts) == content_choices(
            model::collected(completion::part_contents(parts))->Ok_0,
        ),
    decreases parts.len(),
{
    if parts.len() > 0 {
        let all = completion::part_contents(parts);
        let rest = parts.drop_last();
        assert(all.drop_last() =~= completion::part_contents(rest));
        assert(all.last() == completion::part_content(parts.last()));
        lemma_parts_agree(rest);
        lemma_part_agrees(parts.last());
        let contents = model::collected(all)->Ok_0;
        assert(contents.drop_last() =~= model::collected(all.drop_last())->Ok_0);
    }
}

/// A response says the same streamed as not: where it is a completion, its pieces are the text,
/// the thoughts and the calls of the completion, in order.
pub proof fn law_stream_agrees_with_completion(response: GenerateContentResponseView)
    requires
        completion::response_choice(response) is Ok,
    ensures
        response_choices(response) == content_choices(
            completion::response_choice(response)->Ok_0,
        ),
{
    lemma_parts_agree(completion::first_parts(response));
}

} // verus!
