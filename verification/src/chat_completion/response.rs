//! The chat completion response document, its decoding from JSON bytes, and
//! the streamed variant.

use vstd::prelude::*;

use crate::error::{
    classify_failure, is_success_status, spec_is_client_error, spec_is_success, OpenAIError,
};
use crate::json::{
    elements_field, find_member, get_elements, get_int32, get_string, int32_field, json_members,
    json_of, member_lookup, parse_json, string_field, text_of_bytes, value_members,
};
use crate::stream::{drain, drain_buffer, drain_rest, StreamEvent};

use super::request::Message;

verus! {

/// The response returned from a chat completion request.
#[derive(Debug, PartialEq)]
pub struct ChatCompletionResponse {
    /// Request ID
    pub id: String,
    /// Response type
    pub object: String,
    /// Timestamp of when the completion was created
    pub created: i32,
    /// The model the response was created with
    pub model: String,
    /// The list of generated completions
    pub choices: Vec<ChatChoice>,
    /// The tokens used by this response and associated request
    pub usage: ChatUsage,
}

/// The tokens consumed by the completion.
#[derive(Debug, PartialEq, Eq, Clone, Copy)]
pub struct ChatUsage {
    pub prompt_tokens: i32,
    pub completion_tokens: i32,
    pub total_tokens: i32,
}

/// A generated completion.
#[derive(Debug, PartialEq)]
pub struct ChatChoice {
    pub message: Message,
    pub index: i32,
    pub finish_reason: String,
}

pub struct ChatCompletionResponseV {
    pub id: String,
    pub object: String,
    pub created: i32,
    pub model: String,
    pub choices: Seq<ChatChoice>,
    pub usage: ChatUsage,
}

impl View for ChatCompletionResponse {
    type V = ChatCompletionResponseV;

    open spec fn view(&self) -> ChatCompletionResponseV {
        ChatCompletionResponseV {
            id: self.id,
            object: self.object,
            created: self.created,
            model: self.model,
            choices: self.choices@,
            usage: self.usage,
        }
    }
}

// ---------------------------------------------------------------------------
// Decoding specifications
// ---------------------------------------------------------------------------
/// What decoding the `message` object of a choice yields.
pub open spec fn message_of_json(v: serde_json::Value) -> Result<Message, Seq<char>> {
    match json_members(v) {
        None => Err("message is not a JSON object"@),
        Some(ms) => if string_field(ms, "role"@) is None {
            Err("missing or invalid field: role"@)
        } else if string_field(ms, "content"@) is None {
            Err("missing or invalid field: content"@)
        } else {
            Ok(
                Message {
                    role: string_field(ms, "role"@)->0,
                    content: string_field(ms, "content"@)->0,
                },
            )
        },
    }
}

/// What decoding one element of `choices` yields.
pub open spec fn chat_choice_of_json(v: serde_json::Value) -> Result<ChatChoice, Seq<char>> {
    match json_members(v) {
        None => Err("choice is not a JSON object"@),
        Some(ms) => match member_lookup(ms, "message"@) {
            None => Err("missing or invalid field: message"@),
            Some(mv) => match message_of_json(mv) {
                Err(m) => Err(m),
                Ok(message) => if int32_field(ms, "index"@) is None {
                    Err("missing or invalid field: index"@)
                } else if string_field(ms, "finish_reason"@) is None {
                    Err("missing or invalid field: finish_reason"@)
                } else {
                    Ok(
                        ChatChoice {
                            message,
                            index: int32_field(ms, "index"@)->0,
                            finish_reason: string_field(ms, "finish_reason"@)->0,
                        },
                    )
                },
            },
        },
    }
}

/// What decoding the `choices` array yields: every element in order, or the
/// first element's fault.
pub open spec fn chat_choices_of_elements(items: Seq<serde_json::Value>) -> Result<
    Seq<ChatChoice>,
    Seq<char>,
>
    decreases items.len(),
{
    if items.len() == 0 {
        Ok(Seq::<ChatChoice>::empty())
    } else {
        match chat_choice_of_json(items[0]) {
            Err(m) => Err(m),
            Ok(c) => match chat_choices_of_elements(items.drop_first()) {
                Err(m) => Err(m),
                Ok(rest) => Ok(seq![c] + rest),
            },
        }
    }
}

/// What decoding the `usage` object yields.
pub open spec fn chat_usage_of_json(v: serde_json::Value) -> Result<ChatUsage, Seq<char>> {
    match json_members(v) {
        None => Err("missing or invalid field: usage"@),
        Some(ms) => if int32_field(ms, "prompt_tokens"@) is None {
            Err("missing or invalid field: prompt_tokens"@)
        } else if int32_field(ms, "completion_tokens"@) is None {
            Err("missing or invalid field: completion_tokens"@)
        } else if int32_field(ms, "total_tokens"@) is None {
            Err("missing or invalid field: total_tokens"@)
        } else {
            Ok(
                ChatUsage {
                    prompt_tokens: int32_field(ms, "prompt_tokens"@)->0,
                    completion_tokens: int32_field(ms, "completion_tokens"@)->0,
                    total_tokens: int32_field(ms, "total_tokens"@)->0,
                },
            )
        },
    }
}

/// What decoding the whole response document yields.
pub open spec fn chat_of_members(members: Seq<(String, serde_json::Value)>) -> Result<
    ChatCompletionResponseV,
    Seq<char>,
> {
    if string_field(members, "id"@) is None {
        Err("missing or invalid field: id"@)
    } else if string_field(members, "object"@) is None {
        Err("missing or invalid field: object"@)
    } else if int32_field(members, "created"@) is None {
        Err("missing or invalid field: created"@)
    } else if string_field(members, "model"@) is None {
        Err("missing or invalid field: model"@)
    } else {
        match elements_field(members, "choices"@) {
            None => Err("missing or invalid field: choices"@),
            Some(items) => match chat_choices_of_elements(items) {
                Err(m) => Err(m),
                Ok(choices) => match member_lookup(members, "usage"@) {
                    None => Err("missing or invalid field: usage"@),
                    Some(uv) => match chat_usage_of_json(uv) {
                        Err(m) => Err(m),
                        Ok(usage) => Ok(
                            ChatCompletionResponseV {
                                id: string_field(members, "id"@)->0,
                                object: string_field(members, "object"@)->0,
                                created: int32_field(members, "created"@)->0,
                                model: string_field(members, "model"@)->0,
                                choices,
                                usage,
                            },
                        ),
                    },
                },
            },
        }
    }
}

pub open spec fn chat_of_json(v: serde_json::Value) -> Result<ChatCompletionResponseV, Seq<char>> {
    match json_members(v) {
        None => Err("response body is not a JSON object"@),
        Some(ms) => chat_of_members(ms),
    }
}

/// What decoding assembled body bytes yields: the parser's fault, the shape
/// fault, or the document.
pub open spec fn chat_body_outcome(bytes: Seq<u8>) -> Result<ChatCompletionResponseV, Seq<char>> {
    match json_of(bytes) {
        Err(s) => Err(s@),
        Ok(v) => chat_of_json(v),
    }
}

// ---------------------------------------------------------------------------
// Executable decoding
// ---------------------------------------------------------------------------
fn decode_message(v: &serde_json::Value) -> (r: Result<Message, String>)
    ensures
        r matches Ok(m) ==> message_of_json(*v) == Ok::<Message, Seq<char>>(m),
        r matches Err(m) ==> message_of_json(*v) matches Err(t) && m@ == t,
{
    let members = match value_members(v) {
        None => {
            return Err("message is not a JSON object".to_owned());
        },
        Some(m) => m,
    };
    let role = match get_string(&members, "role") {
        None => {
            return Err("missing or invalid field: role".to_owned());
        },
        Some(s) => s,
    };
    let content = match get_string(&members, "content") {
        None => {
            return Err("missing or invalid field: content".to_owned());
        },
        Some(s) => s,
    };
    Ok(Message { role, content })
}

fn decode_chat_choice(v: &serde_json::Value) -> (r: Result<ChatChoice, String>)
    ensures
        r matches Ok(c) ==> chat_choice_of_json(*v) == Ok::<ChatChoice, Seq<char>>(c),
        r matches Err(m) ==> chat_choice_of_json(*v) matches Err(t) && m@ == t,
{
    let members = match value_members(v) {
        None => {
            return Err("choice is not a JSON object".to_owned());
        },
        Some(m) => m,
    };
    let message = match find_member(&members, "message") {
        None => {
            return Err("missing or invalid field: message".to_owned());
        },
        Some(mv) => match decode_message(mv) {
            Err(m) => {
                return Err(m);
            },
            Ok(msg) => msg,
        },
    };
    let index = match get_int32(&members, "index") {
        None => {
            return Err("missing or invalid field: index".to_owned());
        },
        Some(x) => x,
    };
    let finish_reason = match get_string(&members, "finish_reason") {
        None => {
            return Err("missing or invalid field: finish_reason".to_owned());
        },
        Some(s) => s,
    };
    Ok(ChatChoice { message, index, finish_reason })
}

fn decode_chat_choices(items: &Vec<serde_json::Value>) -> (r: Result<Vec<ChatChoice>, String>)
    ensures
        r matches Ok(out) ==> chat_choices_of_elements(items@) == Ok::<_, Seq<char>>(out@),
        r matches Err(m) ==> chat_choices_of_elements(items@) matches Err(t) && m@ == t,
{
    let mut out: Vec<ChatChoice> = Vec::new();
    let mut i: usize = 0;
    proof {
        assert(items@.skip(0) =~= items@);
    }
    while i < items.len()
        invariant
            0 <= i <= items@.len(),
            chat_choices_of_elements(items@.skip(i as int)) matches Ok(rest)
                ==> chat_choices_of_elements(items@) == Ok::<_, Seq<char>>(out@ + rest),
            chat_choices_of_elements(items@.skip(i as int)) matches Err(m)
                ==> chat_choices_of_elements(items@) == Err::<Seq<ChatChoice>, _>(m),
        decreases items@.len() - i,
    {
        proof {
            assert(items@.skip(i as int).drop_first() =~= items@.skip(i as int + 1));
            assert(items@.skip(i as int)[0] == items@[i as int]);
        }
        match decode_chat_choice(&items[i]) {
            Err(m) => {
                return Err(m);
            },
            Ok(c) => {
                out.push(c);
            },
        }
        i += 1;
        proof {
            if chat_choices_of_elements(items@.skip(i as int)) is Ok {
                let rest = chat_choices_of_elements(items@.skip(i as int))->Ok_0;
                assert(chat_choices_of_elements(items@) is Ok);
                assert(out@ + rest =~= chat_choices_of_elements(items@)->Ok_0);
            }
        }
    }
    proof {
        assert(items@.skip(i as int) =~= Seq::<serde_json::Value>::empty());
        assert(out@ + Seq::<ChatChoice>::empty() =~= out@);
    }
    Ok(out)
}

fn decode_chat_usage(v: &serde_json::Value) -> (r: Result<ChatUsage, String>)
    ensures
        r matches Ok(u) ==> chat_usage_of_json(*v) == Ok::<ChatUsage, Seq<char>>(u),
        r matches Err(m) ==> chat_usage_of_json(*v) matches Err(t) && m@ == t,
{
    let members = match value_members(v) {
        None => {
            return Err("missing or invalid field: usage".to_owned());
        },
        Some(m) => m,
    };
    let prompt_tokens = match get_int32(&members, "prompt_tokens") {
        None => {
            return Err("missing or invalid field: prompt_tokens".to_owned());
        },
        Some(x) => x,
    };
    let completion_tokens = match get_int32(&members, "completion_tokens") {
        None => {
            return Err("missing or invalid field: completion_tokens".to_owned());
        },
        Some(x) => x,
    };
    let total_tokens = match get_int32(&members, "total_tokens") {
        None => {
            return Err("missing or invalid field: total_tokens".to_owned());
        },
        Some(x) => x,
    };
    Ok(ChatUsage { prompt_tokens, completion_tokens, total_tokens })
}

fn decode_chat_value(v: &serde_json::Value) -> (r: Result<ChatCompletionResponse, String>)
    ensures
        r matches Ok(resp) ==> chat_of_json(*v) == Ok::<ChatCompletionResponseV, Seq<char>>(resp@),
        r matches Err(m) ==> chat_of_json(*v) matches Err(t) && m@ == t,
{
    let members = match value_members(v) {
        None => {
            return Err("response body is not a JSON object".to_owned());
        },
        Some(m) => m,
    };
    let id = match get_string(&members, "id") {
        None => {
            return Err("missing or invalid field: id".to_owned());
        },
        Some(s) => s,
    };
    let object = match get_string(&members, "object") {
        None => {
            return Err("missing or invalid field: object".to_owned());
        },
        Some(s) => s,
    };
    let created = match get_int32(&members, "created") {
        None => {
            return Err("missing or invalid field: created".to_owned());
        },
        Some(x) => x,
    };
    let model = match get_string(&members, "model") {
        None => {
            return Err("missing or invalid field: model".to_owned());
        },
        Some(s) => s,
    };
    let choices = match get_elements(&members, "choices") {
        None => {
            return Err("missing or invalid field: choices".to_owned());
        },
        Some(items) => match decode_chat_choices(&items) {
            Err(m) => {
                return Err(m);
            },
            Ok(cs) => cs,
        },
    };
    let usage = match find_member(&members, "usage") {
        None => {
            return Err("missing or invalid field: usage".to_owned());
        },
        Some(uv) => match decode_chat_usage(uv) {
            Err(m) => {
                return Err(m);
            },
            Ok(u) => u,
        },
    };
    Ok(ChatCompletionResponse { id, object, created, model, choices, usage })
}

/// Decode assembled body bytes into the response document: the parser's
/// fault and the shape fault are both reported as the message text.
pub(crate) fn decode_chat_body(bytes: &Vec<u8>) -> (r: Result<ChatCompletionResponse, String>)
    ensures
        r matches Ok(resp) ==> chat_body_outcome(bytes@) == Ok::<
            ChatCompletionResponseV,
            Seq<char>,
        >(resp@),
        r matches Err(m) ==> chat_body_outcome(bytes@) matches Err(t) && m@ == t,
{
    match parse_json(bytes.as_slice()) {
        Err(m) => Err(m),
        Ok(v) => decode_chat_value(&v),
    }
}

impl ChatCompletionResponse {
    /// Interpret the transport's outcome of a non-streaming submit — the
    /// complete branch table over the status and the body.
    ///
    /// On a 2xx status the body must decode as the response document, a
    /// fault surfacing as `InvalidState`; a 4xx status is `InvalidArgument`
    /// carrying the body text; any other status is `Internal` carrying the
    /// body text; and a body that could not be read is `InvalidState`
    /// carrying the transport's message.
    pub fn from_submit_outcome(status: u16, body: Result<Vec<u8>, String>) -> (r: Result<
        ChatCompletionResponse,
        OpenAIError,
    >)
        ensures
            spec_is_success(status) ==> (match body {
                Ok(bytes) => match chat_body_outcome(bytes@) {
                    Ok(vv) => r matches Ok(resp) && resp@ == vv,
                    Err(t) => r matches Err(e) && (e matches OpenAIError::InvalidState { message }
                        && message@ == t),
                },
                Err(m) => r matches Err(e) && (e matches OpenAIError::InvalidState { message }
                    && message == m),
            }),
            !spec_is_success(status) ==> (match body {
                Ok(bytes) => (if spec_is_client_error(status) {
                    r matches Err(e) && (e matches OpenAIError::InvalidArgument { key, message }
                        && key@ == "request"@ && message == text_of_bytes(bytes@))
                } else {
                    r matches Err(e) && (e matches OpenAIError::Internal { message } && message
                        == text_of_bytes(bytes@))
                }),
                Err(m) => r matches Err(e) && (e matches OpenAIError::InvalidState { message }
                    && message == m),
            }),
            !spec_is_success(status) ==> (body matches Ok(bytes) ==> ((forall|i: int|
                0 <= i < bytes@.len() ==> bytes@[i] < 128) ==> (r matches Err(e)
                && e.message_view() == Seq::new(bytes@.len(), |i: int| bytes@[i] as char)))),
    {
        if is_success_status(status) {
            match body {
                Err(m) => Err(OpenAIError::InvalidState { message: m }),
                Ok(bytes) => match decode_chat_body(&bytes) {
                    Ok(resp) => Ok(resp),
                    Err(m) => Err(OpenAIError::InvalidState { message: m }),
                },
            }
        } else {
            Err(classify_failure(status, body))
        }
    }
}

/// The response that carries a streamed chat completion exchange: the events
/// the transport observed, and how far they have been consumed.
pub struct ChatCompletionResponseStream {
    pub events: Vec<StreamEvent>,
    pub cursor: usize,
}

impl ChatCompletionResponseStream {
    pub open spec fn wf(&self) -> bool {
        self.cursor <= self.events@.len()
    }

    /// The events not yet consumed.
    pub open spec fn remaining(&self) -> Seq<StreamEvent> {
        self.events@.skip(self.cursor as int)
    }

    pub fn new(events: Vec<StreamEvent>) -> (s: Self)
        ensures
            s.wf(),
            s.remaining() == events@,
    {
        let s = ChatCompletionResponseStream { events, cursor: 0 };
        proof {
            assert(s.events@.skip(0) =~= s.events@);
        }
        s
    }

    /// Drain the stream to completion and decode what was gathered.
    ///
    /// Every non-sentinel chunk is appended to one buffer; a transport
    /// failure aborts at once as `Internal`, discarding the buffer. An empty
    /// buffer — an empty, sentinel-only, or already-drained stream — is the
    /// normal "no response" outcome, not an error; anything else must parse
    /// as the response document, a fault surfacing as `InvalidState` with
    /// the parser's or decoder's message.
    pub fn next(&mut self) -> (r: Result<Option<ChatCompletionResponse>, OpenAIError>)
        requires
            old(self).wf(),
        ensures
            final(self).wf(),
            final(self).remaining() == drain_rest(old(self).remaining()),
            drain_buffer(old(self).remaining()) matches Err(m) ==> r matches Err(e) && (e
                matches OpenAIError::Internal { message } && message@ == m),
            drain_buffer(old(self).remaining()) matches Ok(buf) ==> (if buf.len() == 0 {
                r == Ok::<Option<ChatCompletionResponse>, OpenAIError>(None)
            } else {
                match chat_body_outcome(buf) {
                    Ok(vv) => r matches Ok(s) && s matches Some(resp) && resp@ == vv,
                    Err(t) => r matches Err(e) && (e matches OpenAIError::InvalidState { message }
                        && message@ == t),
                }
            }),
    {
        let (res, nc) = drain(&self.events, self.cursor);
        self.cursor = nc;
        match res {
            Err(m) => Err(OpenAIError::Internal { message: m }),
            Ok(buf) => {
                if buf.len() == 0 {
                    Ok(None)
                } else {
                    match decode_chat_body(&buf) {
                        Ok(resp) => Ok(Some(resp)),
                        Err(m) => Err(OpenAIError::InvalidState { message: m }),
                    }
                }
            },
        }
    }
}

} // verus!
