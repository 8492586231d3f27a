//! Draining streamed responses: sentinel handling, the "no response"
//! outcome, repeat reads, and transport failures mid-stream.

use openai::{
    ChatCompletionResponseStream, CompletionResponseStream, OpenAIError, StreamEvent,
};

const COMPLETION_BODY: &str = "{\"id\":\"1\",\"object\":\"text_completion\",\"created\":5,\"model\":\"m\",\"choices\":[{\"text\":\"hi\",\"index\":0,\"logprobs\":null,\"finish_reason\":\"stop\"}],\"usage\":{\"prompt_tokens\":1,\"completion_tokens\":2,\"total_tokens\":3}}";

const CHAT_BODY: &str = "{\"id\":\"1\",\"object\":\"chat.completion\",\"created\":5,\"model\":\"m\",\"choices\":[{\"message\":{\"role\":\"assistant\",\"content\":\"hi\"},\"index\":0,\"finish_reason\":\"stop\"}],\"usage\":{\"prompt_tokens\":1,\"completion_tokens\":2,\"total_tokens\":3}}";

#[test]
fn drain_decodes_chunks_before_sentinel() {
    // The document arrives split over two chunks, then the sentinel.
    let (a, b) = COMPLETION_BODY.as_bytes().split_at(40);
    let mut s = CompletionResponseStream::new(vec![
        StreamEvent::Chunk(a.to_vec()),
        StreamEvent::Chunk(b.to_vec()),
        StreamEvent::Chunk(b"[DONE]".to_vec()),
    ]);
    let first = s.next().unwrap().expect("one decoded response");
    assert_eq!(first.id, "1");
    assert_eq!(first.object, "text_completion");
    assert_eq!(first.created, 5);
    assert_eq!(first.model, "m");
    assert_eq!(first.choices.len(), 1);
    assert_eq!(first.choices[0].text, "hi");
    assert_eq!(first.choices[0].index, 0);
    assert!(first.choices[0].logprobs.is_none());
    assert_eq!(first.choices[0].finish_reason, "stop");
    assert_eq!(first.usage.prompt_tokens, 1);
    assert_eq!(first.usage.completion_tokens, 2);
    assert_eq!(first.usage.total_tokens, 3);
    // The stream is now fully drained.
    assert!(s.next().unwrap().is_none());
}

#[test]
fn chat_drain_decodes_chunks_before_sentinel() {
    let mut s = ChatCompletionResponseStream::new(vec![
        StreamEvent::Chunk(CHAT_BODY.as_bytes().to_vec()),
        StreamEvent::Chunk(b"[DONE]".to_vec()),
    ]);
    let first = s.next().unwrap().expect("one decoded response");
    assert_eq!(first.id, "1");
    assert_eq!(first.choices[0].message.role(), "assistant");
    assert_eq!(first.choices[0].message.content(), "hi");
    assert_eq!(first.choices[0].finish_reason, "stop");
    assert!(s.next().unwrap().is_none());
}

#[test]
fn sentinel_only_stream_yields_no_response() {
    let mut s = CompletionResponseStream::new(vec![StreamEvent::Chunk(b"[DONE]".to_vec())]);
    assert!(s.next().unwrap().is_none());
}

#[test]
fn empty_stream_yields_no_response() {
    let mut s = CompletionResponseStream::new(Vec::new());
    assert!(s.next().unwrap().is_none());
}

#[test]
fn chat_sentinel_only_stream_yields_no_response() {
    let mut s = ChatCompletionResponseStream::new(vec![StreamEvent::Chunk(b"[DONE]".to_vec())]);
    assert!(s.next().unwrap().is_none());
}

#[test]
fn drained_stream_answers_no_response_twice() {
    let mut s = CompletionResponseStream::new(vec![
        StreamEvent::Chunk(COMPLETION_BODY.as_bytes().to_vec()),
        StreamEvent::Chunk(b"[DONE]".to_vec()),
    ]);
    assert!(s.next().unwrap().is_some());
    assert!(s.next().unwrap().is_none());
    assert!(s.next().unwrap().is_none());
}

#[test]
fn transport_failure_aborts_and_discards_buffer() {
    let (a, b) = COMPLETION_BODY.as_bytes().split_at(40);
    let mut s = CompletionResponseStream::new(vec![
        StreamEvent::Chunk(a.to_vec()),
        StreamEvent::Failed("connection reset".to_string()),
        StreamEvent::Chunk(b.to_vec()),
    ]);
    match s.next() {
        Err(OpenAIError::Internal { message }) => assert_eq!(message, "connection reset"),
        _ => panic!("expected Internal"),
    }
    // The bytes buffered before the failure were discarded: the next read
    // sees only the tail, which alone is not a JSON document.
    assert!(matches!(s.next(), Err(OpenAIError::InvalidState { .. })));
}

#[test]
fn chat_transport_failure_surfaces_internal() {
    let mut s = ChatCompletionResponseStream::new(vec![StreamEvent::Failed(
        "tls handshake failed".to_string(),
    )]);
    match s.next() {
        Err(OpenAIError::Internal { message }) => assert_eq!(message, "tls handshake failed"),
        _ => panic!("expected Internal"),
    }
}

#[test]
fn non_document_buffer_is_invalid_state() {
    let mut s = CompletionResponseStream::new(vec![
        StreamEvent::Chunk(b"not json".to_vec()),
        StreamEvent::Chunk(b"[DONE]".to_vec()),
    ]);
    assert!(matches!(s.next(), Err(OpenAIError::InvalidState { .. })));
}
