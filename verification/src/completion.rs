//! The plain-completion request family: its request builder, its response
//! documents and the decoding of whole and streamed response bodies.

pub mod request;
pub mod response;

pub use request::CompletionRequest;
pub use response::{
    CompletionChoice, CompletionResponse, CompletionResponseStream, CompletionUsage, Logprobs,
};
