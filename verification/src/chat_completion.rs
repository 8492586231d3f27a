//! The chat-completion request family: its request builder, its response
//! documents and the decoding of whole and streamed response bodies.

pub mod request;
pub mod response;

pub use request::{ChatCompletionRequest, Message};
pub use response::{ChatChoice, ChatCompletionResponse, ChatCompletionResponseStream, ChatUsage};
