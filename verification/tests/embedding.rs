use rig_gemini_grpc::message::Usage;
use rig_gemini_grpc::proto::{
    Content, Data, EmbedContentRequest, EmbedContentResponse, Part, UsageMetadata,
};
use rig_gemini_grpc::vertex::client::{build_auth, AuthSource, VertexClient, VertexGrpcEndpoint};
use rig_gemini_grpc::vertex::embedding::{
    Embedding, EmbeddingBatch, EmbeddingError, EmbeddingModel, EMBEDDING_004, MAX_DOCUMENTS,
};

fn client() -> VertexClient {
    let auth = match build_auth(Some("key".to_string()), None, None) {
        Ok(AuthSource::Known(auth)) => auth,
        _ => panic!("auth should build"),
    };
    VertexClient::new("p".to_string(), "l".to_string(), VertexGrpcEndpoint::Global, auth)
}

fn usage(n: i32) -> Option<UsageMetadata> {
    Some(UsageMetadata {
        prompt_token_count: n,
        candidates_token_count: 2 * n,
        total_token_count: 3 * n,
        cached_content_token_count: 0,
    })
}

fn embedded(values: &[f32], usage_metadata: Option<UsageMetadata>) -> EmbedContentResponse {
    EmbedContentResponse {
        embedding: Some(values.iter().map(|v| v.to_bits()).collect()),
        usage_metadata,
    }
}

#[test]
fn dimensions() {
    let model = EmbeddingModel::new(client(), EMBEDDING_004.to_string(), None);
    assert_eq!(model.ndims(), 768);
    assert_eq!(model.client().project(), "p");
    let model = EmbeddingModel::new(client(), "m".to_string(), Some(3));
    assert_eq!(model.ndims(), 3);
    assert_eq!(MAX_DOCUMENTS, 100);
}

#[test]
fn requests() {
    let model = EmbeddingModel::new(client(), EMBEDDING_004.to_string(), Some(256));
    assert_eq!(
        model.request("a document"),
        EmbedContentRequest {
            model: Some(
                "projects/p/locations/l/publishers/google/models/text-embedding-004".to_string()
            ),
            content: Some(Content {
                role: String::new(),
                parts: vec![Part {
                    data: Some(Data::Text("a document".to_string())),
                    thought: false,
                    thought_signature: vec![],
                }],
            }),
            task_type: None,
            title: None,
            output_dimensionality: Some(256),
            auto_truncate: None,
        }
    );
}

#[test]
fn embeddings_come_in_order() {
    let mut batch = EmbeddingBatch::new();
    batch.receive("a".to_string(), Ok(embedded(&[0.5], usage(1)))).expect("there is an embedding");
    batch.receive("b".to_string(), Ok(embedded(&[1.5, 2.0], None))).expect("there is an embedding");
    batch.receive("c".to_string(), Ok(embedded(&[], usage(2)))).expect("there is an embedding");
    assert_eq!(
        batch,
        EmbeddingBatch {
            embeddings: vec![
                Embedding { document: "a".to_string(), vec: vec![0.5f32.to_bits()] },
                Embedding {
                    document: "b".to_string(),
                    vec: vec![1.5f32.to_bits(), 2.0f32.to_bits()],
                },
                Embedding { document: "c".to_string(), vec: vec![] },
            ],
            usage: Usage {
                input_tokens: 3,
                output_tokens: 6,
                total_tokens: 9,
                cached_input_tokens: 0,
            },
        }
    );
}

#[test]
fn a_missing_embedding_is_an_error() {
    let mut batch = EmbeddingBatch::new();
    let response = EmbedContentResponse { embedding: None, usage_metadata: usage(4) };
    assert_eq!(
        batch.receive("a".to_string(), Ok(response)),
        Err(EmbeddingError::ResponseError("No embedding in response".to_string()))
    );
    assert_eq!(batch.usage.input_tokens, 4);
    assert!(batch.embeddings.is_empty());
}

#[test]
fn a_refused_request_is_an_error() {
    let mut batch = EmbeddingBatch::new();
    assert_eq!(
        batch.receive("a".to_string(), Err("status: NotFound".to_string())),
        Err(EmbeddingError::ProviderError("status: NotFound".to_string()))
    );
    assert_eq!(batch, EmbeddingBatch::new());
}

#[test]
fn counts_that_cannot_be_added() {
    let mut batch = EmbeddingBatch::new();
    assert!(batch.can_count(usage(-1)));
    batch.receive("a".to_string(), Ok(embedded(&[], usage(-1)))).expect("there is an embedding");
    assert!(batch.can_count(None));
    assert!(!batch.can_count(usage(1)));
}
