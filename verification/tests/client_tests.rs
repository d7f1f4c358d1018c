use std::hash::{DefaultHasher, Hash, Hasher};

use groq::builder::RequestBuilder;
use groq::client::{
    conclude_buffered, dispatch_path, expects_success_body, CompletionOption, DecodedReply,
    DispatchPath, Groq,
};
use groq::error::{CompletionError, ValidationError};
use groq::message::Message;
use groq::response::{Choice, ChoiceMessage, ErrorBody, Response, UsageInfo};

fn user_message(text: &str) -> Message {
    Message::UserMessage {
        role: Some("user".to_string()),
        content: Some(text.to_string()),
        name: None,
        tool_call_id: None,
    }
}

#[test]
fn test_eq_and_hash() {
    let g1 = Groq::new("api_key")
        .add_messages(vec![user_message("Explain the importance of fast language models")]);
    let g2 = Groq::new("api_key")
        .add_messages(vec![user_message("Explain the importance of fast language models")]);

    let mut hasher = DefaultHasher::new();
    let mut hasher1 = DefaultHasher::new();

    g1.hash(&mut hasher);
    g2.hash(&mut hasher1);
    let hash_string = hasher.finish();
    let hash_string1 = hasher1.finish();

    assert_eq!(hash_string, hash_string1);
}

#[test]
fn history_is_append_only_until_cleared() {
    let g = Groq::new("key");
    assert!(g.messages.is_empty());
    let g = g.add_message(user_message("one"));
    let g = g.add_messages(vec![user_message("two"), user_message("three")]);
    assert_eq!(g.messages.len(), 3);
    let g = g.clear_messages();
    assert!(g.messages.is_empty());
    assert_eq!(g.api_key, "key");
}

#[test]
fn empty_history_is_rejected_before_dispatch() {
    let g = Groq::new("key");
    let buffered = g.prepare_buffered(RequestBuilder::new("m".to_string()));
    assert!(matches!(
        buffered,
        Err(CompletionError::Validation(ValidationError::EmptyHistory))
    ));
    let streamed = g.prepare_streamed(RequestBuilder::new("m".to_string()).with_stream(true));
    assert!(matches!(
        streamed,
        Err(CompletionError::Validation(ValidationError::EmptyHistory))
    ));
}

#[test]
fn stream_flag_mismatch_is_rejected_on_both_paths() {
    let g = Groq::new("key").add_message(user_message("hi"));
    let to_buffered = g.prepare_buffered(RequestBuilder::new("m".to_string()).with_stream(true));
    assert!(matches!(
        to_buffered,
        Err(CompletionError::Validation(ValidationError::StreamFlagMismatch))
    ));
    let to_streamed = g.prepare_streamed(RequestBuilder::new("m".to_string()));
    assert!(matches!(
        to_streamed,
        Err(CompletionError::Validation(ValidationError::StreamFlagMismatch))
    ));
}

#[test]
fn prepare_merges_a_copy_of_the_history() {
    let g = Groq::new("key").add_message(user_message("hi")).add_message(user_message("again"));
    let prepared = g.prepare_buffered(RequestBuilder::new("m".to_string())).unwrap();
    assert_eq!(prepared.messages.len(), 2);
    assert!(!prepared.stream);
    match &prepared.messages[0] {
        Message::UserMessage { content, .. } => {
            assert_eq!(content.as_deref(), Some("hi"));
        },
        other => panic!("unexpected variant: {:?}", other),
    }
    assert_eq!(g.messages.len(), 2);
}

#[test]
fn routing_follows_the_stream_flag() {
    assert_eq!(dispatch_path(&RequestBuilder::new("m".to_string())), DispatchPath::Buffered);
    assert_eq!(
        dispatch_path(&RequestBuilder::new("m".to_string()).with_stream(true)),
        DispatchPath::Streamed
    );
    assert!(expects_success_body(200));
    assert!(!expects_success_body(404));
}

fn sample_response() -> Response {
    Response {
        id: "chatcmpl-1".to_string(),
        object: "chat.completion".to_string(),
        created: 1_700_000_000,
        model: "mixtral-8x7b-32768".to_string(),
        system_fingerprint: None,
        choices: vec![Choice {
            index: 0,
            message: ChoiceMessage {
                role: "assistant".to_string(),
                content: "hello".to_string(),
            },
            finish_reason: "stop".to_string(),
            logprobs: None,
        }],
        usage: UsageInfo {
            prompt_tokens: 10,
            completion_tokens: 5,
            total_tokens: 15,
            prompt_time: "0.01".to_string(),
            completion_time: "0.02".to_string(),
            total_time: "0.03".to_string(),
        },
    }
}

#[test]
fn success_status_yields_the_envelope() {
    let out = conclude_buffered(200, DecodedReply::Envelope(sample_response()));
    match out {
        Ok(CompletionOption::NonStream(resp)) => assert_eq!(resp.id, "chatcmpl-1"),
        other => panic!("unexpected outcome: {:?}", other),
    }
}

#[test]
fn api_error_carries_the_transport_status() {
    let body = ErrorBody {
        error_type: "invalid_request_error".to_string(),
        message: "bad key".to_string(),
    };
    let out = conclude_buffered(401, DecodedReply::ErrorEnvelope(body));
    match out {
        Err(CompletionError::Api(err)) => {
            assert_eq!(err.code, 401);
            assert_eq!(err.error.error_type, "invalid_request_error");
            assert_eq!(err.error.message, "bad key");
        },
        other => panic!("unexpected outcome: {:?}", other),
    }
}

#[test]
fn undecodable_body_is_a_decode_error() {
    let out = conclude_buffered(200, DecodedReply::Malformed("trailing garbage".to_string()));
    match out {
        Err(CompletionError::Decode(msg)) => assert_eq!(msg, "trailing garbage"),
        other => panic!("unexpected outcome: {:?}", other),
    }
}
