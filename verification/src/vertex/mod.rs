//! Vertex AI: the client, completions, streams and embeddings of
//! `google.cloud.aiplatform.v1.PredictionService`.

pub mod client;
pub mod completion;
pub mod embedding;
pub mod streaming;
pub mod value;

pub use crate::proto::{
    Candidate, Content, EmbedContentRequest, EmbedContentResponse, FileData, FunctionCall,
    FunctionDeclaration, FunctionResponse, GenerateContentRequest, GenerateContentResponse,
    GenerationConfig, Part, Tool, ToolConfig, UsageMetadata,
};
pub use client::{VertexClient, VertexClientBuilder, VertexGrpcEndpoint};
