//! Laws of embeddings.
use crate::message::Usage;
use crate::proto::DataView;
use crate::vertex::completion;
use crate::vertex::embedding;
use crate::vertex::embedding::{
    EmbeddingErrorView, EmbeddingModelView, EmbeddingResult, ReplyView,
};
use vstd::prelude::*;

verus! {

/// A request for an embedding asks for exactly the number of dimensions of the model, wherever
/// that number can be sent; a larger one is cut to its low 32 bits.
pub proof fn law_dimensions_are_asked_for(model: EmbeddingModelView, document: Seq<char>)
    ensures
        ({
            let asked = embedding::document_request(model, document).output_dimensionality;
            &&& asked is Some
            &&& model.ndims <= i32::MAX ==> asked->0 == model.ndims
            &&& (model.ndims - asked->0) % 0x1_0000_0000 == 0
        }),
{
}

/// A request for an embedding holds the document as its one plain part, under no role, names the
/// model by its path, and says nothing else.
pub proof fn law_document_is_sent(model: EmbeddingModelView, document: Seq<char>)
    ensures
        ({
            let sent = embedding::document_request(model, document);
            let named_by_path = "projects/"@.is_prefix_of(model.model)
                || "publishers/"@.is_prefix_of(model.model) || "endpoints/"@.is_prefix_of(
                model.model,
            );
            &&& sent.content is Some
            &&& sent.content->0.role.len() == 0
            &&& sent.content->0.parts.len() == 1
            &&& sent.content->0.parts[0].data == Some(DataView::Text(document))
            &&& !sent.content->0.parts[0].thought
            &&& sent.content->0.parts[0].thought_signature.len() == 0
            &&& sent.model is Some
            &&& named_by_path ==> sent.model->0 == model.model
            &&& !named_by_path ==> sent.model->0 == "projects/"@ + model.client.project
                + "/locations/"@ + model.client.location + "/publishers/google/models/"@
                + model.model
            &&& sent.task_type is None
            &&& sent.title is None
            &&& sent.auto_truncate is None
        }),
{
}

/// A reply with an embedding gives it to the document that was asked about. A reply without one,
/// and the lack of a reply, are told apart.
pub proof fn law_reply_is_the_embedding(document: Seq<char>, reply: ReplyView)
    ensures
        ({
            let r = embedding::reply_embedding(document, reply);
            &&& r is Ok <==> reply is Ok && reply->Ok_0.embedding is Some
            &&& r is Ok ==> r->Ok_0.document == document && r->Ok_0.vec
                == reply->Ok_0.embedding->0
            &&& reply is Err ==> r == EmbeddingResult::Err(
                EmbeddingErrorView::ProviderError(reply->Err_0),
            )
            &&& reply is Ok && reply->Ok_0.embedding is None ==> r == EmbeddingResult::Err(
                EmbeddingErrorView::ResponseError("No embedding in response"@),
            )
        }),
{
}

/// What a response reports is counted, whether or not it holds an embedding; the lack of a
/// response counts nothing.
pub proof fn law_usage_is_counted(total: Usage, reply: ReplyView)
    ensures
        ({
            let more = completion::reported_usage(embedding::reply_usage(reply));
            let sum = embedding::usage_sum(total, more);
            &&& reply is Err || reply->Ok_0.usage_metadata is None ==> sum == total
            &&& reply is Ok ==> embedding::reply_usage(reply) == reply->Ok_0.usage_metadata
            &&& embedding::usage_fits(total, more) ==> {
                &&& sum.input_tokens == total.input_tokens + more.input_tokens
                &&& sum.output_tokens == total.output_tokens + more.output_tokens
                &&& sum.total_tokens == total.total_tokens + more.total_tokens
                &&& sum.cached_input_tokens == total.cached_input_tokens + more.cached_input_tokens
            }
        }),
{
}

/// Counts can be added exactly where none of the sums is too large.
pub proof fn law_when_usage_fits(total: Usage, more: Usage)
    ensures
        embedding::usage_fits(total, more) <==> total.input_tokens + more.input_tokens <= u64::MAX
            && total.output_tokens + more.output_tokens <= u64::MAX && total.total_tokens
            + more.total_tokens <= u64::MAX && total.cached_input_tokens + more.cached_input_tokens
            <= u64::MAX,
{
}

/// A batch fails with the first reply that holds no embedding, and with nothing after it.
pub proof fn law_first_bad_reply_is_reported(
    documents: Seq<Seq<char>>,
    replies: Seq<ReplyView>,
    k: int,
)
    requires
        replies.len() == documents.len(),
        0 <= k < documents.len(),
        embedding::reply_embedding(documents[k], replies[k]) is Err,
        forall|i: int|
            0 <= i < k ==> embedding::reply_embedding(documents[i], #[trigger] replies[i]) is Ok,
    ensures
        embedding::batch_result(documents, replies) == embedding::BatchResult::Err(
            embedding::reply_embedding(documents[k], replies[k])->Err_0,
        ),
{
    lemma_batch_holds(documents, replies, k);
    embedding::law_replies_make_the_batch(documents, replies, k);
    if k + 1 < documents.len() {
        embedding::law_replies_make_the_batch(documents, replies, k + 1);
    } else {
        assert(documents.take(k + 1) =~= documents);
        assert(replies.take(k + 1) =~= replies);
    }
}

/// While every reply holds an embedding, a batch does not fail.
proof fn lemma_batch_holds(documents: Seq<Seq<char>>, replies: Seq<ReplyView>, k: int)
    requires
        replies.len() == documents.len(),
        0 <= k < documents.len(),
        forall|i: int|
            0 <= i < k ==> embedding::reply_embedding(documents[i], #[trigger] replies[i]) is Ok,
    ensures
        embedding::batch_result(documents.take(k), replies.take(k)) is Ok,
    decreases k,
{
    if k > 0 {
        lemma_batch_holds(documents, replies, k - 1);
        embedding::law_replies_make_the_batch(documents, replies, k - 1);
        assert(embedding::reply_embedding(documents[k - 1], replies[k - 1]) is Ok);
    } else {
        embedding::law_replies_make_the_batch(documents, replies, 0);
    }
}

} // verus!
