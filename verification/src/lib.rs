//! Chat completion, streaming and embedding over the Vertex AI gRPC API.

pub mod call_metadata;
pub mod client;
pub mod encoding;
pub mod endpoint;
pub mod error;
pub mod json;
pub mod laws;
pub mod message;
pub mod model;
pub mod proto;
mod proto_clone;
pub mod text;
pub mod vertex;
