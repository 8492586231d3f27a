//! Client-side logic for a remote text-generation HTTP API: request builders
//! with local validation, classification of HTTP outcomes, and decoding of
//! whole and chunk-streamed JSON response bodies.
//!
//! The library performs no I/O itself: a caller reads configuration, sends the
//! prepared request and feeds the observed status, body and stream chunks back
//! into the verified functions here.

pub mod chat_completion;
pub mod cli;
pub mod completion;
pub mod config;
pub mod error;
pub mod json;
pub mod stream;

pub use chat_completion::{
    ChatChoice, ChatCompletionRequest, ChatCompletionResponse, ChatCompletionResponseStream,
    ChatUsage, Message,
};
pub use cli::CliError;
pub use completion::{
    CompletionChoice, CompletionRequest, CompletionResponse, CompletionResponseStream,
    CompletionUsage, Logprobs,
};
pub use config::{Credentials, PreparedCall};
pub use error::{classify_failure, is_success_status, OpenAIError};
pub use stream::StreamEvent;
