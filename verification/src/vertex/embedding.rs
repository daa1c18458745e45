//! Embeddings: one request per document, and the embeddings that come back.
use crate::message::Usage;
use crate::model;
use crate::proto;
use crate::proto::{
    Content, ContentView, Data, DataView, EmbedContentRequest, EmbedContentRequestView,
    EmbedContentResponse, EmbedContentResponseView, Part, UsageMetadata,
};
use crate::vertex::client;
use crate::vertex::client::{VertexClient, VertexClientView};
use crate::vertex::completion;
use vstd::prelude::*;

verus! {

/// `text-embedding-004` embedding model
pub const EMBEDDING_004: &'static str = "text-embedding-004";

/// How many documents are embedded at once.
pub const MAX_DOCUMENTS: usize = 100;

/// How many dimensions an embedding has where nothing is said of it.
pub const DEFAULT_DIMENSIONS: usize = 768;

/// Why documents cannot be embedded.
#[derive(Debug, PartialEq, Eq)]
pub enum EmbeddingError {
    /// The response cannot be read.
    ResponseError(String),
    /// The provider refused or failed.
    ProviderError(String),
}

/// What an `EmbeddingError` stands for.
pub enum EmbeddingErrorView {
    ResponseError(Seq<char>),
    ProviderError(Seq<char>),
}

impl View for EmbeddingError {
    type V = EmbeddingErrorView;

    open spec fn view(&self) -> EmbeddingErrorView {
        match self {
            EmbeddingError::ResponseError(text) => EmbeddingErrorView::ResponseError(text@),
            EmbeddingError::ProviderError(text) => EmbeddingErrorView::ProviderError(text@),
        }
    }
}

/// A document and its embedding.
#[derive(Debug, PartialEq, Eq)]
pub struct Embedding {
    pub document: String,
    /// The numbers, as IEEE 754 binary32 bit patterns.
    pub vec: Vec<u32>,
}

/// What an `Embedding` stands for.
pub struct EmbeddingView {
    pub document: Seq<char>,
    pub vec: Seq<u32>,
}

impl View for Embedding {
    type V = EmbeddingView;

    open spec fn view(&self) -> EmbeddingView {
        EmbeddingView { document: self.document@, vec: self.vec@ }
    }
}

/// An embedding model of Vertex AI.
pub struct EmbeddingModel {
    client: VertexClient,
    model: String,
    ndims: usize,
}

/// What an `EmbeddingModel` stands for.
pub struct EmbeddingModelView {
    pub client: VertexClientView,
    pub model: Seq<char>,
    pub ndims: usize,
}

impl View for EmbeddingModel {
    type V = EmbeddingModelView;

    closed spec fn view(&self) -> EmbeddingModelView {
        EmbeddingModelView { client: self.client@, model: self.model@, ndims: self.ndims }
    }
}

impl Clone for EmbeddingModel {
    fn clone(&self) -> (r: EmbeddingModel)
        ensures
            r@ == self@,
    {
        EmbeddingModel {
            client: self.client.clone(),
            model: self.model.clone(),
            ndims: self.ndims,
        }
    }
}

/// The request for the embedding of a document.
pub open spec fn document_request(
    model: EmbeddingModelView,
    document: Seq<char>,
) -> EmbedContentRequestView {
    EmbedContentRequestView {
        model: Some(
            client::model_path(model.client.project, model.client.location, model.model),
        ),
        content: Some(
            ContentView {
                role: Seq::empty(),
                parts: seq![proto::plain_part(DataView::Text(document))],
            },
        ),
        task_type: None,
        title: None,
        output_dimensionality: Some(completion::low_signed(model.ndims as u64)),
        auto_truncate: None,
    }
}

impl EmbeddingModel {
    /// The model of the given name. Its embeddings have 768 dimensions where nothing else is
    /// said.
    pub fn new(client: VertexClient, model: String, dims: Option<usize>) -> (r: EmbeddingModel)
        ensures
            r@ == (EmbeddingModelView {
                client: client@,
                model: model@,
                ndims: match dims {
                    Some(dims) => dims,
                    None => DEFAULT_DIMENSIONS,
                },
            }),
    {
        let ndims: usize = match dims {
            Some(dims) => dims,
            None => DEFAULT_DIMENSIONS,
        };
        EmbeddingModel { client, model, ndims }
    }

    /// How many dimensions the model's embeddings have.
    pub fn ndims(&self) -> (r: usize)
        ensures
            r == self@.ndims,
    {
        self.ndims
    }

    /// The client of the model.
    pub fn client(&self) -> (r: &VertexClient)
        ensures
            r@ == self@.client,
    {
        &self.client
    }

    /// The request for the embedding of a document.
    pub fn request(&self, document: &str) -> (r: EmbedContentRequest)
        ensures
            r@ == document_request(self@, document@),
    {
        let parts = vec![Part::plain(Data::Text(document.to_string()))];
        assert(model::views(parts@) =~= seq![proto::plain_part(DataView::Text(document@))]);
        EmbedContentRequest {
            model: Some(self.client.resolve_model_path(self.model.as_str())),
            content: Some(Content { role: String::new(), parts }),
            task_type: None,
            title: None,
            output_dimensionality: Some(completion::signed_count(self.ndims as u64)),
            auto_truncate: None,
        }
    }
}

/// A reply to a request for an embedding: a response, or the text of the error in its place.
pub type ReplyView = Result<EmbedContentResponseView, Seq<char>>;

/// An embedding, or the error that is reported in its place.
pub type EmbeddingResult = Result<EmbeddingView, EmbeddingErrorView>;

/// The embeddings of a batch, or the error that is reported in their place.
pub type BatchResult = Result<Seq<EmbeddingView>, EmbeddingErrorView>;

/// The embedding of a document that a reply holds.
pub open spec fn reply_embedding(document: Seq<char>, reply: ReplyView) -> EmbeddingResult {
    match reply {
        Err(e) => EmbeddingResult::Err(EmbeddingErrorView::ProviderError(e)),
        Ok(response) => match response.embedding {
            Some(vec) => EmbeddingResult::Ok(EmbeddingView { document, vec }),
            None => EmbeddingResult::Err(
                EmbeddingErrorView::ResponseError("No embedding in response"@),
            ),
        },
    }
}

/// The usage that a reply reports, if it reports any.
pub open spec fn reply_usage(reply: ReplyView) -> Option<UsageMetadata> {
    match reply {
        Ok(response) => response.usage_metadata,
        Err(_) => None,
    }
}

/// Whether the counts of two usages can be added.
pub open spec fn usage_fits(total: Usage, more: Usage) -> bool {
    &&& total.input_tokens + more.input_tokens <= u64::MAX
    &&& total.output_tokens + more.output_tokens <= u64::MAX
    &&& total.total_tokens + more.total_tokens <= u64::MAX
    &&& total.cached_input_tokens + more.cached_input_tokens <= u64::MAX
}

/// The sum of two usages, count by count.
pub open spec fn usage_sum(total: Usage, more: Usage) -> Usage {
    Usage {
        input_tokens: (total.input_tokens + more.input_tokens) as u64,
        output_tokens: (total.output_tokens + more.output_tokens) as u64,
        total_tokens: (total.total_tokens + more.total_tokens) as u64,
        cached_input_tokens: (total.cached_input_tokens + more.cached_input_tokens) as u64,
    }
}

/// A batch of documents under way: the embeddings so far, and what they took.
#[derive(Debug, PartialEq, Eq)]
pub struct EmbeddingBatch {
    pub embeddings: Vec<Embedding>,
    pub usage: Usage,
}

/// What an `EmbeddingBatch` stands for.
pub struct EmbeddingBatchView {
    pub embeddings: Seq<EmbeddingView>,
    pub usage: Usage,
}

impl View for EmbeddingBatch {
    type V = EmbeddingBatchView;

    open spec fn view(&self) -> EmbeddingBatchView {
        EmbeddingBatchView { embeddings: model::views(self.embeddings@), usage: self.usage }
    }
}

impl EmbeddingBatch {
    /// A batch of which nothing has come back yet.
    pub fn new() -> (r: EmbeddingBatch)
        ensures
            r@ == (EmbeddingBatchView {
                embeddings: Seq::empty(),
                usage: completion::reported_usage(None),
            }),
    {
        let r = EmbeddingBatch { embeddings: Vec::new(), usage: completion::usage_of(None) };
        assert(r@.embeddings =~= Seq::empty());
        r
    }

    /// Whether what a reply took can be added to what the batch took so far.
    pub fn can_count(&self, usage_metadata: Option<UsageMetadata>) -> (r: bool)
        ensures
            r == usage_fits(self@.usage, completion::reported_usage(usage_metadata)),
    {
        let more = completion::usage_of(usage_metadata);
        let total = self.usage;
        more.input_tokens <= u64::MAX - total.input_tokens && more.output_tokens <= u64::MAX
            - total.output_tokens && more.total_tokens <= u64::MAX - total.total_tokens
            && more.cached_input_tokens <= u64::MAX - total.cached_input_tokens
    }

    /// Takes the reply to the request for a document: adds what it took, and then the
    /// embedding, unless there is none.
    pub fn receive(&mut self, document: String, reply: Result<EmbedContentResponse, String>) -> (r:
        Result<(), EmbeddingError>)
        requires
            usage_fits(
                old(self)@.usage,
                completion::reported_usage(reply_usage(model::result_view(reply))),
            ),
        ensures
            final(self)@.usage == usage_sum(
                old(self)@.usage,
                completion::reported_usage(reply_usage(model::result_view(reply))),
            ),
            match reply_embedding(document@, model::result_view(reply)) {
                Ok(embedding) => r is Ok && final(self)@.embeddings == old(self)@.embeddings.push(
                    embedding,
                ),
                Err(e) => r is Err && r->Err_0@ == e && final(self)@.embeddings == old(
                    self,
                )@.embeddings,
            },
    {
        let response = match reply {
            Ok(response) => response,
            Err(e) => {
                return Err(EmbeddingError::ProviderError(e));
            },
        };
        let more = completion::usage_of(response.usage_metadata);
        self.usage = Usage {
            input_tokens: self.usage.input_tokens + more.input_tokens,
            output_tokens: self.usage.output_tokens + more.output_tokens,
            total_tokens: self.usage.total_tokens + more.total_tokens,
            cached_input_tokens: self.usage.cached_input_tokens + more.cached_input_tokens,
        };
        match response.embedding {
            Some(vec) => {
                let ghost before = self.embeddings@;
                let embedding = Embedding { document, vec };
                let ghost shown = embedding@;
                self.embeddings.push(embedding);
                assert(model::views(self.embeddings@) =~= model::views(before).push(shown));
                Ok(())
            },
            None => Err(EmbeddingError::ResponseError("No embedding in response".to_string())),
        }
    }
}

/// What the replies to a batch of documents come to: the embeddings in order, or the error of
/// the first reply that holds none.
pub open spec fn batch_result(documents: Seq<Seq<char>>, replies: Seq<ReplyView>) -> BatchResult {
    model::collected(
        Seq::new(documents.len(), |i: int| reply_embedding(documents[i], replies[i])),
    )
}

/// A batch that succeeds has one embedding for each document, in the order of the documents, and
/// each with the numbers of the reply to its own request.
pub proof fn law_batch_keeps_order(documents: Seq<Seq<char>>, replies: Seq<ReplyView>)
    requires
        replies.len() == documents.len(),
        batch_result(documents, replies) is Ok,
    ensures
        ({
            let embeddings = batch_result(documents, replies)->Ok_0;
            &&& embeddings.len() == documents.len()
            &&& forall|i: int|
                0 <= i < documents.len() ==> {
                    &&& (#[trigger] embeddings[i]).document == documents[i]
                    &&& replies[i] is Ok
                    &&& replies[i]->Ok_0.embedding == Some(embeddings[i].vec)
                }
        }),
{
    let all = Seq::new(documents.len(), |i: int| reply_embedding(documents[i], replies[i]));
    model::lemma_collected_ok(all);
    let embeddings = batch_result(documents, replies)->Ok_0;
    assert forall|i: int| 0 <= i < documents.len() implies {
        &&& (#[trigger] embeddings[i]).document == documents[i]
        &&& replies[i] is Ok
        &&& replies[i]->Ok_0.embedding == Some(embeddings[i].vec)
    } by {
        assert(all[i] == EmbeddingResult::Ok(embeddings[i]));
    }
}

/// Reply by reply, a batch comes to what its replies come to: after `i` documents it holds their
/// embeddings, and the next reply adds one or ends it with an error.
pub proof fn law_replies_make_the_batch(
    documents: Seq<Seq<char>>,
    replies: Seq<ReplyView>,
    i: int,
)
    requires
        replies.len() == documents.len(),
        0 <= i < documents.len(),
    ensures
        batch_result(documents.take(0), replies.take(0)) == BatchResult::Ok(Seq::empty()),
        batch_result(documents.take(i + 1), replies.take(i + 1)) == (match batch_result(
            documents.take(i),
            replies.take(i),
        ) {
            Err(e) => BatchResult::Err(e),
            Ok(embeddings) => match reply_embedding(documents[i], replies[i]) {
                Ok(embedding) => BatchResult::Ok(embeddings.push(embedding)),
                Err(e) => BatchResult::Err(e),
            },
        }),
        batch_result(documents.take(i), replies.take(i)) is Err ==> batch_result(documents, replies)
            == batch_result(documents.take(i), replies.take(i)),
{
    let all = Seq::new(documents.len(), |k: int| reply_embedding(documents[k], replies[k]));
    let some = Seq::new(
        i as nat,
        |k: int| reply_embedding(documents.take(i)[k], replies.take(i)[k]),
    );
    let more = Seq::new(
        (i + 1) as nat,
        |k: int| reply_embedding(documents.take(i + 1)[k], replies.take(i + 1)[k]),
    );
    assert(some =~= all.take(i));
    assert(more =~= all.take(i + 1));
    model::lemma_collected_step(all, i);
    if model::collected(some) is Err {
        model::lemma_collected_error(all, i);
    }
}

} // verus!
