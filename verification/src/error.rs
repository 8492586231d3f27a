use vstd::prelude::*;

use crate::json::{bytes_to_text, text_of_bytes};

verus! {

/// The failure classes reported by this crate.
///
/// `Internal` carries a cause internal to the exchange (a transport breakdown
/// or a remote non-4xx failure status). `InvalidArgument` reports a locally
/// rejected configuration, or a remote 4xx status; `key` names the rejected
/// argument (`"request"` for a remote rejection). `InvalidState` reports
/// missing required configuration or an unreadable response body.
#[derive(Debug)]
pub enum OpenAIError {
    Internal { message: String },
    InvalidArgument { key: String, message: String },
    InvalidState { message: String },
}

impl OpenAIError {
    /// The human-readable text carried by the error.
    pub fn message(&self) -> (m: &String)
        ensures
            m@ == self.message_view(),
    {
        match self {
            OpenAIError::Internal { message } => message,
            OpenAIError::InvalidArgument { key: _, message } => message,
            OpenAIError::InvalidState { message } => message,
        }
    }

    pub open spec fn message_view(&self) -> Seq<char> {
        match self {
            OpenAIError::Internal { message } => message@,
            OpenAIError::InvalidArgument { key: _, message } => message@,
            OpenAIError::InvalidState { message } => message@,
        }
    }

    pub fn is_internal(&self) -> (b: bool)
        ensures
            b == (self is Internal),
    {
        matches!(self, OpenAIError::Internal { .. })
    }

    pub fn is_invalid_argument(&self) -> (b: bool)
        ensures
            b == (self is InvalidArgument),
    {
        matches!(self, OpenAIError::InvalidArgument { .. })
    }

    pub fn is_invalid_state(&self) -> (b: bool)
        ensures
            b == (self is InvalidState),
    {
        matches!(self, OpenAIError::InvalidState { .. })
    }
}

/// Message reported when the API key is absent from the configuration.
pub open spec fn api_key_missing_text() -> Seq<char> {
    "OPENAI_API_KEY env variable must be set"@
}

/// Message reported when more than four stop sequences are configured.
pub open spec fn stop_limit_text() -> Seq<char> {
    "You can only provide up to 4 stop sequences"@
}

/// Message reported when temperature and nucleus sampling are both set.
pub open spec fn temperature_conflict_text() -> Seq<char> {
    "Use temperature or top_p but not both"@
}

/// Message reported when a non-streaming submit meets a raised stream flag.
pub open spec fn stream_flag_text() -> Seq<char> {
    "Use stream() instead of submit"@
}

pub(crate) fn api_key_missing_error() -> (e: OpenAIError)
    ensures
        e matches OpenAIError::InvalidState { message } && message@ == api_key_missing_text(),
{
    OpenAIError::InvalidState { message: "OPENAI_API_KEY env variable must be set".to_owned() }
}

pub(crate) fn stop_limit_error() -> (e: OpenAIError)
    ensures
        e matches OpenAIError::InvalidArgument { key, message } && key@ == "stop"@ && message@
            == stop_limit_text(),
{
    OpenAIError::InvalidArgument {
        key: "stop".to_owned(),
        message: "You can only provide up to 4 stop sequences".to_owned(),
    }
}

pub(crate) fn temperature_conflict_error() -> (e: OpenAIError)
    ensures
        e matches OpenAIError::InvalidArgument { key, message } && key@ == "temperature"@
            && message@ == temperature_conflict_text(),
{
    OpenAIError::InvalidArgument {
        key: "temperature".to_owned(),
        message: "Use temperature or top_p but not both".to_owned(),
    }
}

pub(crate) fn stream_flag_error() -> (e: OpenAIError)
    ensures
        e matches OpenAIError::InvalidArgument { key, message } && key@ == "stream"@ && message@
            == stream_flag_text(),
{
    OpenAIError::InvalidArgument {
        key: "stream".to_owned(),
        message: "Use stream() instead of submit".to_owned(),
    }
}

/// Whether the status is a success (2xx) status.
pub open spec fn spec_is_success(status: u16) -> bool {
    200 <= status < 300
}

/// Whether the status is a client-error (4xx) status.
pub open spec fn spec_is_client_error(status: u16) -> bool {
    400 <= status < 500
}

/// Whether the remote status opens the success path.
pub fn is_success_status(status: u16) -> (b: bool)
    ensures
        b == spec_is_success(status),
{
    200 <= status && status < 300
}

/// Turn a non-success HTTP outcome into the error owed to the caller: a 4xx
/// status is the remote service rejecting the request (`InvalidArgument`
/// carrying the body text), any other failure status is `Internal` carrying
/// the body text, and a body that could not be read at all is `InvalidState`
/// carrying the transport's message.
pub fn classify_failure(status: u16, body: Result<Vec<u8>, String>) -> (e: OpenAIError)
    requires
        !spec_is_success(status),
    ensures
        body matches Err(m) ==> (e matches OpenAIError::InvalidState { message } && message == m),
        body matches Ok(bytes) ==> (spec_is_client_error(status) ==> (e
            matches OpenAIError::InvalidArgument { key, message } && key@ == "request"@ && message
            == text_of_bytes(bytes@))),
        body matches Ok(bytes) ==> (!spec_is_client_error(status) ==> (e
            matches OpenAIError::Internal { message } && message == text_of_bytes(bytes@))),
        body matches Ok(bytes) ==> ((forall|i: int| 0 <= i < bytes@.len() ==> bytes@[i] < 128)
            ==> e.message_view() == Seq::new(bytes@.len(), |i: int| bytes@[i] as char)),
{
    match body {
        Err(m) => OpenAIError::InvalidState { message: m },
        Ok(bytes) => {
            let text = bytes_to_text(bytes.as_slice());
            if 400 <= status && status < 500 {
                OpenAIError::InvalidArgument { key: "request".to_owned(), message: text }
            } else {
                OpenAIError::Internal { message: text }
            }
        },
    }
}

} // verus!
