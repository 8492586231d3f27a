//! Decoding whole response bodies: the status branch table, the
//! log-probability flattening, and the faults a malformed document raises.

use openai::{ChatCompletionResponse, CompletionResponse, OpenAIError};

fn completion_body_with_logprobs() -> Vec<u8> {
    "{\"id\":\"1\",\"object\":\"text_completion\",\"created\":5,\"model\":\"m\",\"choices\":[{\"text\":\"a\",\"index\":0,\"logprobs\":{\"tokens\":[\"a\"],\"token_logprobs\":[-0.5],\"top_logprobs\":[{\"a\":1.0},{\"b\":2.0},{\"a\":3.0}],\"text_offset\":[0]},\"finish_reason\":\"stop\"}],\"usage\":{\"prompt_tokens\":1,\"completion_tokens\":2,\"total_tokens\":3}}"
    .as_bytes()
    .to_vec()
}

#[test]
fn success_body_decodes() {
    let body = "{\"id\":\"cmpl-9\",\"object\":\"text_completion\",\"created\":7,\"model\":\"babbage-002\",\"choices\":[{\"text\":\"one\",\"index\":0,\"logprobs\":null,\"finish_reason\":\"stop\"},{\"text\":\"two\",\"index\":1,\"finish_reason\":\"length\"}],\"usage\":{\"prompt_tokens\":4,\"completion_tokens\":5,\"total_tokens\":9}}";
    let r = CompletionResponse::from_submit_outcome(200, Ok(body.as_bytes().to_vec())).unwrap();
    assert_eq!(r.id, "cmpl-9");
    assert_eq!(r.created, 7);
    assert_eq!(r.choices.len(), 2);
    assert_eq!(r.choices[0].text, "one");
    // A choice without the optional logprobs member decodes without detail.
    assert!(r.choices[1].logprobs.is_none());
    assert_eq!(r.choices[1].index, 1);
    assert_eq!(r.usage.total_tokens, 9);
}

#[test]
fn chat_success_body_decodes() {
    let body = "{\"id\":\"chat-1\",\"object\":\"chat.completion\",\"created\":7,\"model\":\"gpt-3.5-turbo\",\"choices\":[{\"message\":{\"role\":\"assistant\",\"content\":\"ok\"},\"index\":0,\"finish_reason\":\"stop\"}],\"usage\":{\"prompt_tokens\":4,\"completion_tokens\":5,\"total_tokens\":9}}";
    let r = ChatCompletionResponse::from_submit_outcome(200, Ok(body.as_bytes().to_vec()))
        .unwrap();
    assert_eq!(r.id, "chat-1");
    assert_eq!(r.model, "gpt-3.5-turbo");
    assert_eq!(r.choices[0].message.role(), "assistant");
    assert_eq!(r.choices[0].message.content(), "ok");
    assert_eq!(r.usage.completion_tokens, 5);
}

#[test]
fn top_logprobs_flatten_last_write_wins() {
    let r = CompletionResponse::from_submit_outcome(200, Ok(completion_body_with_logprobs()))
        .unwrap();
    let lp = r.choices[0].logprobs.as_ref().expect("logprobs decoded");
    assert_eq!(lp.tokens, vec!["a".to_string()]);
    assert_eq!(lp.token_logprobs, vec!["-0.5".to_string()]);
    assert_eq!(lp.text_offset, vec![0]);
    // [{"a":1.0},{"b":2.0},{"a":3.0}] flattens to {a: 3.0, b: 2.0}.
    assert_eq!(lp.top_logprobs.len(), 2);
    assert_eq!(lp.top_logprobs[0].0, "a");
    assert_eq!(lp.top_logprobs[0].1.parse::<f32>().unwrap(), 3.0);
    assert_eq!(lp.top_logprobs[1].0, "b");
    assert_eq!(lp.top_logprobs[1].1.parse::<f32>().unwrap(), 2.0);
}

#[test]
fn client_error_status_carries_body_text() {
    let r = CompletionResponse::from_submit_outcome(400, Ok(b"bad request".to_vec()));
    match r {
        Err(OpenAIError::InvalidArgument { key, message }) => {
            assert_eq!(key, "request");
            assert_eq!(message, "bad request");
        },
        _ => panic!("expected InvalidArgument"),
    }
}

#[test]
fn server_error_status_carries_body_text() {
    let r = CompletionResponse::from_submit_outcome(500, Ok(b"upstream exploded".to_vec()));
    match r {
        Err(OpenAIError::Internal { message }) => assert_eq!(message, "upstream exploded"),
        _ => panic!("expected Internal"),
    }
}

#[test]
fn chat_client_and_server_errors_classify_alike() {
    let r = ChatCompletionResponse::from_submit_outcome(404, Ok(b"no such model".to_vec()));
    assert!(matches!(r, Err(OpenAIError::InvalidArgument { .. })));
    let r = ChatCompletionResponse::from_submit_outcome(503, Ok(b"overloaded".to_vec()));
    assert!(matches!(r, Err(OpenAIError::Internal { .. })));
}

#[test]
fn unreadable_body_is_invalid_state() {
    let r = CompletionResponse::from_submit_outcome(200, Err("read timed out".to_string()));
    match r {
        Err(OpenAIError::InvalidState { message }) => assert_eq!(message, "read timed out"),
        _ => panic!("expected InvalidState"),
    }
    // The same holds on the failure branch, where the body text was wanted.
    let r = CompletionResponse::from_submit_outcome(500, Err("read timed out".to_string()));
    assert!(matches!(r, Err(OpenAIError::InvalidState { .. })));
}

#[test]
fn unparsable_success_body_is_invalid_state() {
    let r = CompletionResponse::from_submit_outcome(200, Ok(b"{not json".to_vec()));
    assert!(matches!(r, Err(OpenAIError::InvalidState { .. })));
}

#[test]
fn missing_field_is_reported_by_name() {
    let body = "{\"id\":\"1\",\"object\":\"text_completion\",\"created\":5,\"model\":\"m\",\"choices\":[]}";
    let r = CompletionResponse::from_submit_outcome(200, Ok(body.as_bytes().to_vec()));
    match r {
        Err(OpenAIError::InvalidState { message }) => {
            assert_eq!(message, "missing or invalid field: usage");
        },
        _ => panic!("expected InvalidState"),
    }
}

#[test]
fn out_of_range_created_is_rejected() {
    let body = "{\"id\":\"1\",\"object\":\"text_completion\",\"created\":999999999999,\"model\":\"m\",\"choices\":[],\"usage\":{\"prompt_tokens\":1,\"completion_tokens\":2,\"total_tokens\":3}}";
    let r = CompletionResponse::from_submit_outcome(200, Ok(body.as_bytes().to_vec()));
    match r {
        Err(OpenAIError::InvalidState { message }) => {
            assert_eq!(message, "missing or invalid field: created");
        },
        _ => panic!("expected InvalidState"),
    }
}

#[test]
fn non_object_choice_is_rejected() {
    let body = "{\"id\":\"1\",\"object\":\"text_completion\",\"created\":5,\"model\":\"m\",\"choices\":[42],\"usage\":{\"prompt_tokens\":1,\"completion_tokens\":2,\"total_tokens\":3}}";
    let r = CompletionResponse::from_submit_outcome(200, Ok(body.as_bytes().to_vec()));
    match r {
        Err(OpenAIError::InvalidState { message }) => {
            assert_eq!(message, "choice is not a JSON object");
        },
        _ => panic!("expected InvalidState"),
    }
}

#[test]
fn error_accessors_expose_class_and_message() {
    let r = CompletionResponse::from_submit_outcome(500, Ok(b"oops".to_vec()));
    let e = r.err().unwrap();
    assert!(e.is_internal());
    assert!(!e.is_invalid_argument());
    assert!(!e.is_invalid_state());
    assert_eq!(e.message(), "oops");
}
