//! Local pre-send validation: every rejection happens before any transport
//! work, and each check reports its fixed error.

use openai::{
    ChatCompletionRequest, CliError, CompletionRequest, Credentials, Message, OpenAIError,
};

fn creds() -> Credentials {
    Credentials { api_key: Some("test-key".to_string()), org: None }
}

fn msgs() -> Vec<Message> {
    vec![Message::new("user", "Say this is a test.")]
}

#[test]
fn completion_temperature_and_top_p_rejected() {
    let r = CompletionRequest::new("babbage-002", "Say this is a test")
        .with_temperature(0.5f32.to_bits())
        .with_top_p(0.1f32.to_bits())
        .begin_submit(&creds());
    match r {
        Err(OpenAIError::InvalidArgument { key, message }) => {
            assert_eq!(key, "temperature");
            assert_eq!(message, "Use temperature or top_p but not both");
        },
        _ => panic!("expected InvalidArgument"),
    }
}

#[test]
fn completion_temperature_and_top_p_rejected_on_stream() {
    let r = CompletionRequest::new("babbage-002", "Say this is a test")
        .with_temperature(0.5f32.to_bits())
        .with_top_p(0.1f32.to_bits())
        .begin_stream(&creds());
    assert!(matches!(r, Err(OpenAIError::InvalidArgument { .. })));
}

#[test]
fn chat_temperature_and_top_p_rejected() {
    let r = ChatCompletionRequest::new("gpt-3.5-turbo", &msgs())
        .with_temperature(0.0f32.to_bits())
        .with_top_p(0.1f32.to_bits())
        .begin_submit(&creds());
    assert!(matches!(r, Err(OpenAIError::InvalidArgument { .. })));
}

#[test]
fn completion_five_stops_rejected() {
    let stops: Vec<String> =
        vec!["a".to_string(), "b".to_string(), "c".to_string(), "d".to_string(), "e".to_string()];
    let r = CompletionRequest::new("babbage-002", "Say this is a test")
        .with_stops(&stops)
        .begin_submit(&creds());
    match r {
        Err(OpenAIError::InvalidArgument { key, message }) => {
            assert_eq!(key, "stop");
            assert_eq!(message, "You can only provide up to 4 stop sequences");
        },
        _ => panic!("expected InvalidArgument"),
    }
}

#[test]
fn completion_four_stops_accepted() {
    let stops: Vec<String> =
        vec!["a".to_string(), "b".to_string(), "c".to_string(), "d".to_string()];
    let r = CompletionRequest::new("babbage-002", "Say this is a test")
        .with_stops(&stops)
        .begin_submit(&creds());
    assert!(r.is_ok());
}

#[test]
fn chat_five_stops_rejected_on_stream() {
    let stops: Vec<String> =
        vec!["a".to_string(), "b".to_string(), "c".to_string(), "d".to_string(), "e".to_string()];
    let r = ChatCompletionRequest::new("gpt-3.5-turbo", &msgs())
        .with_stops(&stops)
        .begin_stream(&creds());
    assert!(matches!(r, Err(OpenAIError::InvalidArgument { .. })));
}

#[test]
fn completion_submit_with_raised_stream_flag_rejected() {
    let r = CompletionRequest::new("babbage-002", "Say this is a test")
        .with_stream(true)
        .begin_submit(&creds());
    match r {
        Err(OpenAIError::InvalidArgument { key, message }) => {
            assert_eq!(key, "stream");
            assert_eq!(message, "Use stream() instead of submit");
        },
        _ => panic!("expected InvalidArgument"),
    }
}

#[test]
fn completion_stream_ignores_raised_stream_flag() {
    let r = CompletionRequest::new("babbage-002", "Say this is a test")
        .with_stream(true)
        .begin_stream(&creds());
    assert!(r.is_ok());
}

#[test]
fn chat_submit_with_raised_stream_flag_rejected() {
    let r = ChatCompletionRequest::new("gpt-3.5-turbo", &msgs())
        .with_stream(true)
        .begin_submit(&creds());
    assert!(matches!(r, Err(OpenAIError::InvalidArgument { .. })));
}

#[test]
fn completion_missing_api_key_rejected() {
    let no_creds = Credentials { api_key: None, org: None };
    let r = CompletionRequest::new("babbage-002", "Say this is a test").begin_submit(&no_creds);
    match r {
        Err(OpenAIError::InvalidState { message }) => {
            assert_eq!(message, "OPENAI_API_KEY env variable must be set");
        },
        _ => panic!("expected InvalidState"),
    }
}

#[test]
fn chat_missing_api_key_rejected_on_stream() {
    let no_creds = Credentials { api_key: None, org: None };
    let r = ChatCompletionRequest::new("gpt-3.5-turbo", &msgs()).begin_stream(&no_creds);
    assert!(matches!(r, Err(OpenAIError::InvalidState { .. })));
}

#[test]
fn missing_api_key_reported_before_other_faults() {
    // The key check comes first even when a later check would also reject.
    let no_creds = Credentials { api_key: None, org: None };
    let r = CompletionRequest::new("babbage-002", "Say this is a test")
        .with_temperature(0.5f32.to_bits())
        .with_top_p(0.1f32.to_bits())
        .begin_submit(&no_creds);
    assert!(matches!(r, Err(OpenAIError::InvalidState { .. })));
}

#[test]
fn prepared_call_carries_key_org_and_body() {
    let with_org = Credentials {
        api_key: Some("test-key".to_string()),
        org: Some("org-1".to_string()),
    };
    let p = CompletionRequest::new("babbage-002", "Say this is a test")
        .with_max_tokens(15)
        .begin_submit(&with_org)
        .unwrap();
    assert_eq!(p.api_key, "test-key");
    assert_eq!(p.org.as_deref(), Some("org-1"));
    assert_eq!(p.body.model, "babbage-002");
    assert_eq!(p.body.prompt, "Say this is a test");
    assert_eq!(p.body.max_tokens, Some(15));
}

#[test]
fn completion_builder_records_every_field() {
    let bias: Vec<(String, i8)> = vec![("50256".to_string(), -100)];
    let r = CompletionRequest::new("babbage-002", "Say this is a test")
        .with_suffix("end")
        .with_max_tokens(15)
        .with_n(2)
        .with_logprobs(1)
        .with_echo(true)
        .with_stop("test")
        .with_presence_penalty((-2.0f32).to_bits())
        .with_frequency_penalty((-2.0f32).to_bits())
        .with_best_of(2)
        .with_logit_bias(&bias)
        .with_user("USER_A");
    assert_eq!(r.suffix.as_deref(), Some("end"));
    assert_eq!(r.max_tokens, Some(15));
    assert_eq!(r.n, Some(2));
    assert_eq!(r.logprobs, Some(1));
    assert_eq!(r.echo, Some(true));
    assert_eq!(r.stop, Some(vec!["test".to_string()]));
    assert_eq!(r.presence_penalty.map(f32::from_bits), Some(-2.0));
    assert_eq!(r.frequency_penalty.map(f32::from_bits), Some(-2.0));
    assert_eq!(r.best_of, Some(2));
    assert_eq!(r.logit_bias, Some(bias));
    assert_eq!(r.user.as_deref(), Some("USER_A"));
}

#[test]
fn chat_builder_records_every_field() {
    let bias: Vec<(String, i8)> = vec![("50256".to_string(), -100)];
    let r = ChatCompletionRequest::new("gpt-3.5-turbo", &msgs())
        .with_max_tokens(15)
        .with_temperature(0.0f32.to_bits())
        .with_n(2)
        .with_stop("test")
        .with_presence_penalty((-2.0f32).to_bits())
        .with_frequency_penalty((-2.0f32).to_bits())
        .with_logit_bias(&bias)
        .with_user("USER_A");
    assert_eq!(r.model, "gpt-3.5-turbo");
    assert_eq!(r.messages.len(), 1);
    assert_eq!(r.messages[0].role(), "user");
    assert_eq!(r.messages[0].content(), "Say this is a test.");
    assert_eq!(r.max_tokens, Some(15));
    assert_eq!(r.temperature.map(f32::from_bits), Some(0.0));
    assert_eq!(r.n, Some(2));
    assert_eq!(r.stop, Some(vec!["test".to_string()]));
    assert_eq!(r.logit_bias, Some(bias));
    assert_eq!(r.user.as_deref(), Some("USER_A"));
}

#[test]
fn with_stops_overwrites_with_stop() {
    let stops: Vec<String> = vec!["x".to_string(), "y".to_string()];
    let r = CompletionRequest::new("m", "p").with_stop("test").with_stops(&stops);
    assert_eq!(r.stop, Some(stops));
}

#[test]
fn message_accessors() {
    let m = Message::new("user", "hello");
    assert_eq!(m.role(), "user");
    assert_eq!(m.content(), "hello");
    let c = m.clone();
    assert_eq!(m, c);
}

#[test]
fn cli_error_carries_message() {
    let e = CliError::new("it went wrong".to_string());
    assert_eq!(e.message(), "it went wrong");
}
