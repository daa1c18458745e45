//! Laws of streams.
use crate::encoding;
use crate::encoding::Variant;
use crate::error::CompletionErrorView;
use crate::proto::{GenerateContentResponseView, PartView};
use crate::vertex::completion;
use crate::vertex::streaming;
use crate::vertex::streaming::{RawStreamingChoiceView, StreamEvent, StreamItem};
use crate::vertex::value;
use vstd::prelude::*;

verus! {

/// Text is a piece of the message, or of a thought; a function call is a call of the tool of that
/// name, with every argument and its signature. Nothing else is a piece of a stream.
pub proof fn law_parts_are_pieces(part: PartView)
    ensures
        ({
            let piece = streaming::part_choice(part);
            let is_text = part.data is Some && part.data->0 is Text;
            let is_call = part.data is Some && part.data->0 is FunctionCall;
            let call = part.data->0->FunctionCall_0;
            let tool_call = piece->0->ToolCall_0;
            &&& piece is Some <==> is_text || is_call
            &&& is_text && !part.thought ==> piece->0 == RawStreamingChoiceView::Message(
                part.data->0->Text_0,
            )
            &&& is_text && part.thought ==> piece->0 == (RawStreamingChoiceView::ReasoningDelta {
                id: None,
                reasoning: part.data->0->Text_0,
            })
            &&& is_call ==> {
                &&& piece->0 is ToolCall
                &&& tool_call.id == call.name
                &&& tool_call.name == call.name
                &&& tool_call.arguments is Object
                &&& tool_call.arguments->Object_0.len() == (if call.args is Some {
                    call.args->0.len()
                } else {
                    0
                })
                &&& forall|i: int|
                    call.args is Some && 0 <= i < call.args->0.len() ==> (
                    #[trigger] tool_call.arguments->Object_0[i]).0 == call.args->0[i].0
                        && tool_call.arguments->Object_0[i].1 == value::value_to_json(
                        call.args->0[i].1,
                    )
                &&& part.thought_signature.len() == 0 <==> tool_call.signature is None
                &&& part.thought_signature.len() > 0 ==> tool_call.signature == Some(
                    encoding::base64_encoded(Variant::Standard, part.thought_signature),
                )
            }
        }),
{
}

/// The pieces of two lots of parts are those of the first, then those of the second.
pub proof fn law_pieces_of_parts(first: Seq<PartView>, second: Seq<PartView>)
    ensures
        streaming::part_choices(first + second) == streaming::part_choices(first)
            + streaming::part_choices(second),
        forall|part: PartView|
            #[trigger] streaming::part_choices(seq![part]) == (if streaming::part_choice(
                part,
            ) is Some {
                seq![StreamItem::Ok(streaming::part_choice(part)->0)]
            } else {
                Seq::empty()
            }),
    decreases second.len(),
{
    if second.len() > 0 {
        assert((first + second).drop_last() =~= first + second.drop_last());
        law_pieces_of_parts(first, second.drop_last());
    } else {
        assert(first + second =~= first);
    }
    assert(streaming::part_choices(first + second) =~= streaming::part_choices(first)
        + streaming::part_choices(second));
    assert forall|part: PartView|
        #[trigger] streaming::part_choices(seq![part]) == (if streaming::part_choice(
            part,
        ) is Some {
            seq![StreamItem::Ok(streaming::part_choice(part)->0)]
        } else {
            Seq::empty()
        }) by {
        let parts = seq![part];
        assert(parts.drop_last() =~= Seq::empty());
        assert(streaming::part_choices(parts.drop_last()) =~= Seq::empty());
        assert(streaming::part_choices(parts) =~= (if streaming::part_choice(part) is Some {
            seq![StreamItem::Ok(streaming::part_choice(part)->0)]
        } else {
            Seq::empty()
        }));
    }
}

/// The pieces of a response are those of the parts of its first candidate. The response is the
/// last one exactly where that candidate gives a reason to finish.
pub proof fn law_pieces_of_a_response(response: GenerateContentResponseView)
    ensures
        response.candidates.len() == 0 || response.candidates[0].content is None
            ==> streaming::response_choices(response).len() == 0,
        response.candidates.len() > 0 && response.candidates[0].content is Some
            ==> streaming::response_choices(response) == streaming::part_choices(
            response.candidates[0].content->0.parts,
        ),
        streaming::is_final(response) <==> response.candidates.len() > 0
            && response.candidates[0].finish_reason != 0,
        streaming::goes_on(Some(StreamEvent::Ok(response))) <==> !streaming::is_final(response),
{
}

/// A stream goes on after a response that is not the last one, and after nothing else.
pub proof fn law_when_a_stream_goes_on(event: Option<StreamEvent>)
    ensures
        event is None ==> !streaming::goes_on(event),
        event is Some && event->0 is Err ==> !streaming::goes_on(event),
        event is Some && event->0 is Ok ==> (streaming::goes_on(event) <==> !streaming::is_final(
            event->0->Ok_0,
        )),
{
}

/// A step yields every piece of the response, and after those of the last one the response
/// itself. An error is yielded alone, and so is the closing response at the end.
pub proof fn law_what_a_step_yields(
    last: Option<GenerateContentResponseView>,
    event: Option<StreamEvent>,
)
    ensures
        ({
            let items = streaming::step_items(last, event);
            let closing = items[0]->Ok_0->FinalResponse_0;
            let response = event->0->Ok_0;
            let pieces = streaming::response_choices(response);
            &&& event is None ==> {
                &&& items.len() == 1
                &&& items[0] is Ok
                &&& items[0]->Ok_0 is FinalResponse
                &&& last is Some ==> closing == last->0
                &&& last is None ==> closing.candidates.len() == 0 && closing.usage_metadata is None
                    && closing.model_version.len() == 0 && closing.response_id.len() == 0
            }
            &&& event is Some && event->0 is Err ==> items == seq![
                StreamItem::Err(CompletionErrorView::ProviderError(event->0->Err_0)),
            ]
            &&& event is Some && event->0 is Ok && streaming::is_final(response) ==> {
                &&& items.len() == pieces.len() + 1
                &&& items.take(pieces.len() as int) == pieces
                &&& items.last() == StreamItem::Ok(RawStreamingChoiceView::FinalResponse(response))
            }
            &&& event is Some && event->0 is Ok && !streaming::is_final(response) ==> items
                == pieces
        }),
{
    if event is Some && event->0 is Ok {
        let pieces = streaming::response_choices(event->0->Ok_0);
        if streaming::is_final(event->0->Ok_0) {
            assert(streaming::step_items(last, event).take(pieces.len() as int) =~= pieces);
        }
    }
}

/// A stream that a final response ends closes with that response, whatever came before and
/// whatever would come after.
pub proof fn law_stream_closes_with_the_final_response(
    last: Option<GenerateContentResponseView>,
    events: Seq<StreamEvent>,
    k: int,
)
    requires
        0 <= k < events.len(),
        events[k] is Ok,
        streaming::is_final(events[k]->Ok_0),
        forall|i: int| 0 <= i < k ==> streaming::goes_on(Some(#[trigger] events[i])),
    ensures
        streaming::streamed(last, events).last() == StreamItem::Ok(
            RawStreamingChoiceView::FinalResponse(events[k]->Ok_0),
        ),
    decreases k,
{
    if k > 0 {
        assert(streaming::goes_on(Some(events[0])));
        let rest = events.drop_first();
        assert forall|i: int| 0 <= i < k - 1 implies streaming::goes_on(
            Some(#[trigger] rest[i]),
        ) by {
            assert(rest[i] == events[i + 1]);
        }
        law_stream_closes_with_the_final_response(Some(events[0]->Ok_0), rest, k - 1);
        streaming::law_stream_ends_once(Some(events[0]->Ok_0), rest);
    }
}

/// No piece is lost or comes out of turn: a stream yields first all pieces of its first response,
/// and then, where that is not the last one, what a stream of the rest yields.
pub proof fn law_pieces_come_in_order(
    last: Option<GenerateContentResponseView>,
    events: Seq<StreamEvent>,
)
    requires
        events.len() > 0,
        events[0] is Ok,
    ensures
        ({
            let pieces = streaming::response_choices(events[0]->Ok_0);
            let items = streaming::streamed(last, events);
            &&& items.len() > pieces.len()
            &&& items.take(pieces.len() as int) == pieces
            &&& !streaming::is_final(events[0]->Ok_0) ==> items.skip(pieces.len() as int)
                == streaming::streamed(Some(events[0]->Ok_0), events.drop_first())
            &&& streaming::is_final(events[0]->Ok_0) ==> items.len() == pieces.len() + 1
        }),
{
    let pieces = streaming::response_choices(events[0]->Ok_0);
    let items = streaming::streamed(last, events);
    if !streaming::is_final(events[0]->Ok_0) {
        streaming::law_stream_ends_once(Some(events[0]->Ok_0), events.drop_first());
        assert(items.skip(pieces.len() as int) =~= streaming::streamed(
            Some(events[0]->Ok_0),
            events.drop_first(),
        ));
    }
    assert(items.take(pieces.len() as int) =~= pieces);
}

/// What has to fit in memory of a streamed response is the base64 form of the signature of each
/// function call in its first candidate.
pub proof fn law_what_can_be_streamed(part: PartView, response: GenerateContentResponseView)
    ensures
        streaming::streamable_part(part) <==> (part.data is Some && part.data->0 is FunctionCall
            ==> encoding::encodable(part.thought_signature.len())),
        streaming::streamable(response) <==> forall|i: int|
            0 <= i < completion::first_parts(response).len() ==> streaming::streamable_part(
                #[trigger] completion::first_parts(response)[i],
            ),
{
}

} // verus!
