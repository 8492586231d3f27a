//! Builder for the chat completion request and its pre-send checks.

use vstd::prelude::*;

use crate::config::{request_check, stops_count, Credentials, PreparedCall, RequestCheck};
use crate::error::{
    api_key_missing_error, api_key_missing_text, stop_limit_error, stop_limit_text,
    stream_flag_error, stream_flag_text, temperature_conflict_error, temperature_conflict_text,
    OpenAIError,
};

verus! {

/// One role/content pair of the conversation sent to the service.
#[derive(Debug, PartialEq)]
pub struct Message {
    pub role: String,
    pub content: String,
}

impl Clone for Message {
    fn clone(&self) -> (r: Self)
        ensures
            r == *self,
    {
        Message { role: self.role.clone(), content: self.content.clone() }
    }
}

impl Message {
    pub fn new(role: &str, content: &str) -> (r: Self)
        ensures
            r.role@ == role@,
            r.content@ == content@,
    {
        Message { role: role.to_owned(), content: content.to_owned() }
    }

    pub fn role(&self) -> (r: &str)
        ensures
            r@ == self.role@,
    {
        self.role.as_str()
    }

    pub fn content(&self) -> (r: &str)
        ensures
            r@ == self.content@,
    {
        self.content.as_str()
    }
}

pub(crate) fn clone_messages(items: &Vec<Message>) -> (r: Vec<Message>)
    ensures
        r@ == items@,
{
    let mut out: Vec<Message> = Vec::new();
    let mut i: usize = 0;
    while i < items.len()
        invariant
            0 <= i <= items@.len(),
            out@.len() == i,
            forall|t: int| 0 <= t < i ==> out@[t] == items@[t],
        decreases items@.len() - i,
    {
        out.push(items[i].clone());
        i += 1;
    }
    proof {
        assert(out@ =~= items@);
    }
    out
}

/// Builder for creating the chat completion request before handing it to the
/// transport.
///
/// Sampling controls that the service takes as floating-point numbers
/// (temperature, nucleus sampling and the two penalties) are carried as the
/// bit pattern of the IEEE-754 single-precision value; the library only
/// records them, and the transport turns them back into numbers when it
/// serializes the body.
#[derive(Debug, PartialEq)]
pub struct ChatCompletionRequest {
    pub model: String,
    pub messages: Vec<Message>,
    pub temperature: Option<u32>,
    pub top_p: Option<u32>,
    pub n: Option<i8>,
    pub stream: Option<bool>,
    pub stop: Option<Vec<String>>,
    pub max_tokens: Option<i32>,
    pub presence_penalty: Option<u32>,
    pub frequency_penalty: Option<u32>,
    pub logit_bias: Option<Vec<(String, i8)>>,
    pub user: Option<String>,
}

impl ChatCompletionRequest {
    /// The verdict of the local checks when submitting without streaming.
    pub open spec fn submit_check(&self, credentials: Credentials) -> RequestCheck {
        request_check(
            credentials.api_key is Some,
            stops_count(self.stop),
            self.temperature is Some,
            self.top_p is Some,
            self.stream == Some(true),
            true,
        )
    }

    /// The verdict of the local checks when opening a stream.
    pub open spec fn stream_check(&self, credentials: Credentials) -> RequestCheck {
        request_check(
            credentials.api_key is Some,
            stops_count(self.stop),
            self.temperature is Some,
            self.top_p is Some,
            self.stream == Some(true),
            false,
        )
    }

    /// Create a new `ChatCompletionRequest` builder.
    ///
    /// Takes a model and the conversation messages, as these are always
    /// required.
    pub fn new(model: &str, messages: &Vec<Message>) -> (r: Self)
        ensures
            r.model@ == model@,
            r.messages@ == messages@,
            r.temperature is None,
            r.top_p is None,
            r.n is None,
            r.stream is None,
            r.stop is None,
            r.max_tokens is None,
            r.presence_penalty is None,
            r.frequency_penalty is None,
            r.logit_bias is None,
            r.user is None,
    {
        ChatCompletionRequest {
            model: model.to_owned(),
            messages: clone_messages(messages),
            temperature: None,
            top_p: None,
            n: None,
            stream: None,
            stop: None,
            max_tokens: None,
            presence_penalty: None,
            frequency_penalty: None,
            logit_bias: None,
            user: None,
        }
    }

    /// Check the request against the local rules and, when it passes, hand
    /// back what the transport needs to POST it, without streaming.
    ///
    /// No network activity is involved: every rejection here happens before
    /// any call could be made. The checks run in a fixed order — missing API
    /// key first, then the stop-sequence limit, then the
    /// temperature/nucleus-sampling conflict, then the raised stream flag.
    pub fn begin_submit(self, credentials: &Credentials) -> (r: Result<
        PreparedCall<ChatCompletionRequest>,
        OpenAIError,
    >)
        ensures
            r is Ok <==> self.submit_check(*credentials) is Accepted,
            credentials.api_key is None ==> (r matches Err(e) && e
                matches OpenAIError::InvalidState { message } && message@
                == api_key_missing_text()),
            credentials.api_key is Some && stops_count(self.stop) > 4 ==> (r matches Err(e) && e
                matches OpenAIError::InvalidArgument { key, message } && key@ == "stop"@
                && message@ == stop_limit_text()),
            credentials.api_key is Some && stops_count(self.stop) <= 4 && self.temperature is Some
                && self.top_p is Some ==> (r matches Err(e) && e
                matches OpenAIError::InvalidArgument { key, message } && key@ == "temperature"@
                && message@ == temperature_conflict_text()),
            credentials.api_key is Some && stops_count(self.stop) <= 4 && !(self.temperature
                is Some && self.top_p is Some) && self.stream == Some(true) ==> (r matches Err(e)
                && e matches OpenAIError::InvalidArgument { key, message } && key@ == "stream"@
                && message@ == stream_flag_text()),
            r matches Ok(p) ==> p.body == self && (credentials.api_key matches Some(k) && p.api_key
                == k) && p.org == credentials.org,
    {
        let api_key = match &credentials.api_key {
            None => {
                return Err(api_key_missing_error());
            },
            Some(k) => k.clone(),
        };
        if let Some(stops) = &self.stop {
            if stops.len() > 4 {
                return Err(stop_limit_error());
            }
        }
        if self.temperature.is_some() && self.top_p.is_some() {
            return Err(temperature_conflict_error());
        }
        match self.stream {
            Some(true) => {
                return Err(stream_flag_error());
            },
            _ => {},
        }
        let org = match &credentials.org {
            None => None,
            Some(o) => Some(o.clone()),
        };
        Ok(PreparedCall { api_key, org, body: self })
    }

    /// Check the request against the local rules and, when it passes, hand
    /// back what the transport needs to POST it and read the body as a
    /// stream of chunks.
    ///
    /// The checks are those of `begin_submit` except the stream-flag one:
    /// streaming is what this operation is for. The prepared body is the
    /// request exactly as configured.
    pub fn begin_stream(self, credentials: &Credentials) -> (r: Result<
        PreparedCall<ChatCompletionRequest>,
        OpenAIError,
    >)
        ensures
            r is Ok <==> self.stream_check(*credentials) is Accepted,
            credentials.api_key is None ==> (r matches Err(e) && e
                matches OpenAIError::InvalidState { message } && message@
                == api_key_missing_text()),
            credentials.api_key is Some && stops_count(self.stop) > 4 ==> (r matches Err(e) && e
                matches OpenAIError::InvalidArgument { key, message } && key@ == "stop"@
                && message@ == stop_limit_text()),
            credentials.api_key is Some && stops_count(self.stop) <= 4 && self.temperature is Some
                && self.top_p is Some ==> (r matches Err(e) && e
                matches OpenAIError::InvalidArgument { key, message } && key@ == "temperature"@
                && message@ == temperature_conflict_text()),
            r matches Ok(p) ==> p.body == self && (credentials.api_key matches Some(k) && p.api_key
                == k) && p.org == credentials.org,
    {
        let api_key = match &credentials.api_key {
            None => {
                return Err(api_key_missing_error());
            },
            Some(k) => k.clone(),
        };
        if let Some(stops) = &self.stop {
            if stops.len() > 4 {
                return Err(stop_limit_error());
            }
        }
        if self.temperature.is_some() && self.top_p.is_some() {
            return Err(temperature_conflict_error());
        }
        let org = match &credentials.org {
            None => None,
            Some(o) => Some(o.clone()),
        };
        Ok(PreparedCall { api_key, org, body: self })
    }

    /// The maximum number of tokens to generate in the completion.
    pub fn with_max_tokens(self, max_tokens: i32) -> (r: Self)
        ensures
            r == (ChatCompletionRequest { max_tokens: Some(max_tokens), ..self }),
    {
        ChatCompletionRequest { max_tokens: Some(max_tokens), ..self }
    }

    /// What sampling temperature to use, as the bit pattern of the
    /// single-precision value.
    ///
    /// This should not be used at the same time as top_p.
    pub fn with_temperature(self, temperature: u32) -> (r: Self)
        ensures
            r == (ChatCompletionRequest { temperature: Some(temperature), ..self }),
    {
        ChatCompletionRequest { temperature: Some(temperature), ..self }
    }

    /// Nucleus sampling value, as the bit pattern of the single-precision
    /// value.
    ///
    /// This should not be used at the same time as temperature.
    pub fn with_top_p(self, top_p: u32) -> (r: Self)
        ensures
            r == (ChatCompletionRequest { top_p: Some(top_p), ..self }),
    {
        ChatCompletionRequest { top_p: Some(top_p), ..self }
    }

    /// How many completions to generate for each prompt.
    pub fn with_n(self, n: i8) -> (r: Self)
        ensures
            r == (ChatCompletionRequest { n: Some(n), ..self }),
    {
        ChatCompletionRequest { n: Some(n), ..self }
    }

    /// Raise or clear the stream flag directly.
    ///
    /// A non-streaming submit refuses a request whose flag stands raised.
    pub fn with_stream(self, stream: bool) -> (r: Self)
        ensures
            r == (ChatCompletionRequest { stream: Some(stream), ..self }),
    {
        ChatCompletionRequest { stream: Some(stream), ..self }
    }

    /// The sequence where the API will stop generating further tokens.
    ///
    /// The returned text will not contain the stop sequence. Use of
    /// `with_stops` will overwrite this value.
    pub fn with_stop(self, stop: &str) -> (r: Self)
        ensures
            r == (ChatCompletionRequest { stop: r.stop, ..self }),
            r.stop matches Some(v) && v@.len() == 1 && v@[0]@ == stop@,
    {
        let mut stops: Vec<String> = Vec::new();
        stops.push(stop.to_owned());
        ChatCompletionRequest { stop: Some(stops), ..self }
    }

    /// Up to 4 sequences where the API will stop generating further tokens.
    ///
    /// The returned text will not contain the stop sequence. Use of
    /// `with_stop` will overwrite this value.
    pub fn with_stops(self, stop: &Vec<String>) -> (r: Self)
        ensures
            r == (ChatCompletionRequest { stop: r.stop, ..self }),
            r.stop matches Some(v) && v@ == stop@,
    {
        ChatCompletionRequest { stop: Some(crate::config::clone_strings(stop)), ..self }
    }

    /// Positive values penalize new tokens based on whether they appear in
    /// the text so far, as the bit pattern of the single-precision value.
    ///
    /// This increases the model's likelihood to talk about new topics.
    /// Takes a number between -2.0 and 2.0.
    pub fn with_presence_penalty(self, presence_penalty: u32) -> (r: Self)
        ensures
            r == (ChatCompletionRequest { presence_penalty: Some(presence_penalty), ..self }),
    {
        ChatCompletionRequest { presence_penalty: Some(presence_penalty), ..self }
    }

    /// Positive values penalize new tokens based on their existing frequency
    /// in the text so far, as the bit pattern of the single-precision value.
    ///
    /// Decreases the model's likelihood to repeat the same line verbatim.
    /// Takes a number between -2.0 and 2.0.
    pub fn with_frequency_penalty(self, frequency_penalty: u32) -> (r: Self)
        ensures
            r == (ChatCompletionRequest { frequency_penalty: Some(frequency_penalty), ..self }),
    {
        ChatCompletionRequest { frequency_penalty: Some(frequency_penalty), ..self }
    }

    /// Modify the likelihood of specified tokens appearing in the
    /// completion.
    ///
    /// Accepts pairs that map tokens (specified by their token ID in the GPT
    /// tokenizer) to an associated bias value from -100 to 100.
    ///
    /// As an example, you can pass `("50256", -100)` to prevent the
    /// `<|endoftext|>` token from being generated.
    pub fn with_logit_bias(self, logit_bias: &Vec<(String, i8)>) -> (r: Self)
        ensures
            r == (ChatCompletionRequest { logit_bias: r.logit_bias, ..self }),
            r.logit_bias matches Some(v) && v@ == logit_bias@,
    {
        ChatCompletionRequest { logit_bias: Some(crate::config::clone_bias(logit_bias)), ..self }
    }

    /// A unique ID representing your end-user, which can help the service
    /// monitor and detect abuse.
    pub fn with_user(self, user: &str) -> (r: Self)
        ensures
            r == (ChatCompletionRequest { user: r.user, ..self }),
            r.user matches Some(s) && s@ == user@,
    {
        ChatCompletionRequest { user: Some(user.to_owned()), ..self }
    }
}

} // verus!
