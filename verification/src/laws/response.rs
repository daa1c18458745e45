//! Laws of responses and the completions that they are.
use crate::encoding;
use crate::encoding::Variant;
use crate::error::CompletionErrorView;
use crate::message;
use crate::message::{
    AssistantContentView, ImageDetail, ImageView, ReasoningContentView, SourceView,
};
use crate::model;
use crate::proto;
use crate::proto::{DataView, GenerateContentResponseView, PartView, UsageMetadata, ValueView};
use crate::text;
use crate::vertex::completion;
use crate::vertex::completion::{AssistantResult, ChoiceResult};
use crate::vertex::value;
use vstd::prelude::*;

verus! {

/// Text that is no thought is said as it is. Text that is a thought is one block of reasoning,
/// with the base64 form of its signature where it has one.
pub proof fn law_text_is_said(part: PartView)
    requires
        part.data is Some,
        part.data->0 is Text,
    ensures
        ({
            let said = completion::part_content(part);
            let text = part.data->0->Text_0;
            &&& said is Ok
            &&& !part.thought ==> said->Ok_0 == AssistantContentView::Text(text)
            &&& part.thought ==> {
                let reasoning = said->Ok_0->Reasoning_0;
                &&& said->Ok_0 is Reasoning
                &&& reasoning.id is None
                &&& reasoning.content.len() == 1
                &&& reasoning.content[0] is Text
                &&& reasoning.content[0]->Text_text == text
                &&& reasoning.content[0]->Text_signature is None
                    <==> part.thought_signature.len() == 0
                &&& part.thought_signature.len() > 0 ==> reasoning.content[0]->Text_signature
                    == Some(encoding::base64_encoded(Variant::Standard, part.thought_signature))
            }
        }),
{
}

/// A function call is a call of the tool of that name, identified by it, with every argument, and
/// with the base64 form of its signature where it has one.
pub proof fn law_function_call_is_a_tool_call(part: PartView)
    requires
        part.data is Some,
        part.data->0 is FunctionCall,
    ensures
        ({
            let call = part.data->0->FunctionCall_0;
            let said = completion::part_content(part);
            let tool_call = said->Ok_0->ToolCall_0;
            &&& said is Ok
            &&& said->Ok_0 is ToolCall
            &&& tool_call == completion::requested_call(call, part.thought_signature)
            &&& tool_call.id == call.name
            &&& tool_call.name == call.name
            &&& tool_call.arguments is Object
            &&& call.args is None ==> tool_call.arguments->Object_0.len() == 0
            &&& call.args is Some ==> tool_call.arguments->Object_0.len() == call.args->0.len()
            &&& forall|i: int|
                call.args is Some && 0 <= i < call.args->0.len() ==> (
                #[trigger] tool_call.arguments->Object_0[i]).0 == call.args->0[i].0
                    && tool_call.arguments->Object_0[i].1 == value::value_to_json(
                    call.args->0[i].1,
                )
            &&& tool_call.signature is None <==> part.thought_signature.len() == 0
            &&& part.thought_signature.len() > 0 ==> tool_call.signature == Some(
                encoding::base64_encoded(Variant::Standard, part.thought_signature),
            )
        }),
{
}

/// Bytes of an image are an image of that media type, in base64. Other bytes, and parts that hold
/// something else or nothing, are not understood.
pub proof fn law_other_parts(part: PartView)
    requires
        part.data is None || !(part.data->0 is Text || part.data->0 is FunctionCall),
    ensures
        ({
            let said = completion::part_content(part);
            let blob = part.data->0->InlineData_0;
            let media_type = message::mime_image_type(blob.mime_type);
            &&& part.data is None || !(part.data->0 is InlineData) ==> said == AssistantResult::Err(
                CompletionErrorView::ResponseError(
                    "Response did not contain a message or tool call"@,
                ),
            )
            &&& part.data is Some && part.data->0 is InlineData && media_type is None ==> said
                == AssistantResult::Err(
                CompletionErrorView::ResponseError(
                    "Unsupported media type "@ + message::media_type_shown(blob.mime_type),
                ),
            )
            &&& part.data is Some && part.data->0 is InlineData && media_type is Some ==> said
                == AssistantResult::Ok(
                AssistantContentView::Image(
                    ImageView {
                        data: SourceView::Base64(
                            encoding::base64_encoded(Variant::Standard, blob.data),
                        ),
                        media_type,
                        detail: Some(ImageDetail::Auto),
                    },
                ),
            )
        }),
{
}

/// A completion says what the parts of the first candidate say, one for one, in order, and no
/// part is lost.
pub proof fn law_completion_says_every_part(response: GenerateContentResponseView)
    requires
        completion::response_choice(response) is Ok,
    ensures
        response.candidates.len() > 0,
        response.candidates[0].content is Some,
        ({
            let parts = response.candidates[0].content->0.parts;
            let said = completion::response_choice(response)->Ok_0;
            &&& said.len() == parts.len()
            &&& said.len() > 0
            &&& forall|i: int|
                0 <= i < parts.len() ==> completion::part_content(parts[i]) == AssistantResult::Ok(
                    #[trigger] said[i],
                )
        }),
{
    let parts = response.candidates[0].content->0.parts;
    let all = completion::part_contents(parts);
    model::lemma_collected_ok(all);
    let said = completion::response_choice(response)->Ok_0;
    assert forall|i: int| 0 <= i < parts.len() implies completion::part_content(parts[i])
        == AssistantResult::Ok(#[trigger] said[i]) by {
        assert(all[i] == completion::part_content(parts[i]));
    }
}

/// A response is a completion exactly where its first candidate has parts and each of them is
/// understood. Otherwise the error says what is missing, or is that of the first part that is not
/// understood.
pub proof fn law_why_a_response_is_no_completion(response: GenerateContentResponseView, k: int)
    ensures
        response.candidates.len() == 0 ==> completion::response_choice(response)
            == ChoiceResult::Err(
            CompletionErrorView::ResponseError("No response candidates in response"@),
        ),
        response.candidates.len() > 0 && response.candidates[0].content is None
            ==> completion::response_choice(response) == ChoiceResult::Err(
            CompletionErrorView::ResponseError(
                "Vertex candidate missing content (finish_reason="@ + text::decimal(
                    response.candidates[0].finish_reason as int,
                ) + ")"@,
            ),
        ),
        ({
            let parts = response.candidates[0].content->0.parts;
            response.candidates.len() > 0 && response.candidates[0].content is Some ==> {
                &&& parts.len() == 0 ==> completion::response_choice(response) == ChoiceResult::Err(
                    CompletionErrorView::ResponseError(
                        "Response contained no message or tool call (empty)"@,
                    ),
                )
                &&& parts.len() > 0 && (forall|i: int|
                    0 <= i < parts.len() ==> completion::part_content(#[trigger] parts[i]) is Ok)
                    ==> completion::response_choice(response) is Ok
                &&& 0 <= k < parts.len() && completion::part_content(parts[k]) is Err && (forall|
                    i: int,
                |
                    0 <= i < k ==> completion::part_content(#[trigger] parts[i]) is Ok)
                    ==> completion::response_choice(response) == ChoiceResult::Err(
                    completion::part_content(parts[k])->Err_0,
                )
            }
        }),
{
    if response.candidates.len() > 0 && response.candidates[0].content is Some {
        let parts = response.candidates[0].content->0.parts;
        let all = completion::part_contents(parts);
        model::lemma_collected_ok(all);
        assert(forall|i: int|
            0 <= i < all.len() ==> #[trigger] all[i] == completion::part_content(parts[i]));
        if 0 <= k < parts.len() && completion::part_content(parts[k]) is Err && (forall|i: int|
            0 <= i < k ==> completion::part_content(#[trigger] parts[i]) is Ok) {
            let before = all.take(k);
            model::lemma_collected_ok(before);
            assert forall|i: int| 0 <= i < before.len() implies (#[trigger] before[i]) is Ok by {
                assert(before[i] == completion::part_content(parts[i]));
            }
            model::lemma_collected_step(all, k);
            model::lemma_collected_error(all, k + 1);
        }
    }
}

/// Two responses with the same first candidate say the same.
pub proof fn law_only_the_first_candidate_counts(
    one: GenerateContentResponseView,
    other: GenerateContentResponseView,
)
    requires
        one.candidates.len() > 0,
        other.candidates.len() > 0,
        one.candidates[0] == other.candidates[0],
    ensures
        completion::response_choice(one) == completion::response_choice(other),
        completion::response_text(one) == completion::response_text(other),
        completion::first_parts(one) == completion::first_parts(other),
{
}

/// The parts that count are those of the first candidate.
pub proof fn law_first_parts(response: GenerateContentResponseView)
    ensures
        response.candidates.len() > 0 && response.candidates[0].content is Some
            ==> completion::first_parts(response) == response.candidates[0].content->0.parts,
        response.candidates.len() == 0 || response.candidates[0].content is None
            ==> completion::first_parts(response).len() == 0,
{
}

/// Usage is reported count by count; where a response reports none, all counts are zero.
pub proof fn law_usage_is_reported(usage: Option<UsageMetadata>)
    ensures
        ({
            let reported = completion::reported_usage(usage);
            &&& usage is None ==> reported.input_tokens == 0 && reported.output_tokens == 0
                && reported.total_tokens == 0 && reported.cached_input_tokens == 0
            &&& usage is Some && usage->0.prompt_token_count >= 0 ==> reported.input_tokens
                == usage->0.prompt_token_count
            &&& usage is Some && usage->0.candidates_token_count >= 0 ==> reported.output_tokens
                == usage->0.candidates_token_count
            &&& usage is Some && usage->0.total_token_count >= 0 ==> reported.total_tokens
                == usage->0.total_token_count
            &&& usage is Some && usage->0.cached_content_token_count >= 0
                ==> reported.cached_input_tokens == usage->0.cached_content_token_count
            &&& usage is Some ==> (reported.input_tokens - usage->0.prompt_token_count) % (u64::MAX
                + 1) == 0
            &&& usage is Some ==> (reported.output_tokens - usage->0.candidates_token_count) % (
            u64::MAX + 1) == 0
            &&& usage is Some ==> (reported.total_tokens - usage->0.total_token_count) % (u64::MAX
                + 1) == 0
            &&& usage is Some ==> (reported.cached_input_tokens
                - usage->0.cached_content_token_count) % (u64::MAX + 1) == 0
        }),
{
}

/// The texts of two lots of parts are those of the first, then those of the second. A part has a
/// text exactly where it holds one, thought or not.
pub proof fn law_texts_of_parts(first: Seq<PartView>, second: Seq<PartView>)
    ensures
        completion::part_texts(first + second) == completion::part_texts(first)
            + completion::part_texts(second),
        forall|part: PartView|
            #[trigger] completion::part_texts(seq![part]) == (if part.data is Some
                && part.data->0 is Text {
                seq![part.data->0->Text_0]
            } else {
                Seq::empty()
            }),
    decreases second.len(),
{
    if second.len() > 0 {
        assert((first + second).drop_last() =~= first + second.drop_last());
        law_texts_of_parts(first, second.drop_last());
    } else {
        assert(first + second =~= first);
    }
    assert(completion::part_texts(first + second) =~= completion::part_texts(first)
        + completion::part_texts(second));
    assert forall|part: PartView|
        #[trigger] completion::part_texts(seq![part]) == (if part.data is Some
            && part.data->0 is Text {
            seq![part.data->0->Text_0]
        } else {
            Seq::empty()
        }) by {
        let parts = seq![part];
        assert(parts.drop_last() =~= Seq::empty());
        assert(completion::part_texts(parts.drop_last()) =~= Seq::empty());
        assert(completion::part_texts(parts) =~= (if part.data is Some && part.data->0 is Text {
            seq![part.data->0->Text_0]
        } else {
            Seq::empty()
        }));
    }
}

/// The text of a response is that of its first candidate, a line break between each two texts.
/// There is one exactly where there is a text, be it empty.
pub proof fn law_response_text(response: GenerateContentResponseView)
    ensures
        ({
            let texts = completion::part_texts(completion::first_parts(response));
            &&& completion::response_text(response) is None <==> texts.len() == 0
            &&& texts.len() > 0 ==> completion::response_text(response) == Some(
                text::joined(texts, "\n"@),
            )
        }),
{
}

/// An ID or a version that may be empty is given as it is, unless it is empty.
pub proof fn law_unless_empty(s: Seq<char>)
    ensures
        completion::unless_empty(s) is None <==> s.len() == 0,
        s.len() > 0 ==> completion::unless_empty(s) == Some(s),
{
}

/// A single block of reasoning with a text and a signature.
pub proof fn law_thought_is_one_block(text: Seq<char>, signature: Option<Seq<char>>)
    ensures
        completion::thought(text, signature).id is None,
        completion::thought(text, signature).content.len() == 1,
        completion::thought(text, signature).content[0] == (ReasoningContentView::Text {
            text,
            signature,
        }),
{
}

/// A response with nothing in it has no candidate, no usage, no version and no ID.
pub proof fn law_empty_response_is_empty()
    ensures
        proto::empty_response().candidates.len() == 0,
        proto::empty_response().usage_metadata is None,
        proto::empty_response().model_version.len() == 0,
        proto::empty_response().response_id.len() == 0,
{
}

/// A plain part carries its data and nothing else.
pub proof fn law_plain_part_is_plain(data: DataView)
    ensures
        proto::plain_part(data).data == Some(data),
        !proto::plain_part(data).thought,
        proto::plain_part(data).thought_signature.len() == 0,
{
}

/// Bytes in a response are an image exactly where their MIME type is that of one: the image of
/// that media type, whose base64 text is that of the bytes.
pub proof fn law_image_of_a_response(data: Seq<u8>, mime_type: Seq<char>, shown: Seq<char>)
    ensures
        ({
            let media_type = message::mime_image_type(mime_type);
            let said = completion::blob_content(data, media_type, shown);
            &&& said is Ok <==> media_type is Some
            &&& media_type is None ==> said->Err_0 == CompletionErrorView::ResponseError(
                "Unsupported media type "@ + shown,
            )
            &&& said is Ok ==> said->Ok_0 is Image && said->Ok_0->Image_0.media_type == media_type
                && said->Ok_0->Image_0.data == SourceView::Base64(
                encoding::base64_encoded(Variant::Standard, data),
            ) && said->Ok_0->Image_0.detail == Some(ImageDetail::Auto)
        }),
{
}

/// A part can be sent back as it came exactly where it is text that is a thought or has no
/// signature, or a function call with arguments that JSON can express and that is no thought.
pub proof fn law_parts_that_can_be_sent_back(part: PartView)
    ensures
        part.data is None ==> !completion::replayable(part),
        part.data is Some && part.data->0 is Text ==> (completion::replayable(part) <==> part.thought
            || part.thought_signature.len() == 0),
        part.data is Some && part.data->0 is FunctionCall ==> (completion::replayable(part)
            <==> !part.thought && part.data->0->FunctionCall_0.args is Some && value::expressible(
            ValueView::Struct(part.data->0->FunctionCall_0.args->0),
        )),
        part.data is Some && !(part.data->0 is Text || part.data->0 is FunctionCall)
            ==> !completion::replayable(part),
{
}

/// What has to fit in memory of a part is the base64 form of its signature and of its bytes, and
/// of a response that of each part of its first candidate.
pub proof fn law_what_has_to_fit_in_memory(part: PartView, response: GenerateContentResponseView)
    ensures
        completion::encodable_part(part) <==> encoding::encodable(part.thought_signature.len()) && (
        part.data is Some && part.data->0 is InlineData ==> encoding::encodable(
            part.data->0->InlineData_0.data.len(),
        )),
        completion::encodable_response(response) <==> forall|i: int|
            0 <= i < completion::first_parts(response).len() ==> completion::encodable_part(
                #[trigger] completion::first_parts(response)[i],
            ),
        completion::replayable_response(response) <==> forall|i: int|
            0 <= i < completion::first_parts(response).len() ==> completion::replayable(
                #[trigger] completion::first_parts(response)[i],
            ),
{
}

} // verus!
