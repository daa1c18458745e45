//! What holds of the library's operations, each stated of its inputs and results.

pub mod connection;
pub mod embedding;
pub mod request;
pub mod response;
pub mod stream;
pub mod values;
pub mod views;
