use groq::error::CompletionError;
use groq::response::StreamResponse;
use groq::stream::{consume_events, SseEvent, StreamAction, StreamConsumer};

fn chunk(id: &str) -> StreamResponse {
    StreamResponse {
        id: id.to_string(),
        object: "chat.completion.chunk".to_string(),
        created: 1_700_000_000,
        model: "mixtral-8x7b-32768".to_string(),
        system_fingerprint: None,
        choices: Vec::new(),
        x_groq: None,
    }
}

#[test]
fn chunks_come_back_in_arrival_order() {
    let events = vec![
        SseEvent::Open,
        SseEvent::Message("{\"id\":\"c1\"}".to_string()),
        SseEvent::Decoded(chunk("c1")),
        SseEvent::Message("{\"id\":\"c2\"}".to_string()),
        SseEvent::Decoded(chunk("c2")),
        SseEvent::Message("[DONE]".to_string()),
    ];
    let out = consume_events(events).unwrap();
    assert_eq!(out.len(), 2);
    assert_eq!(out[0].id, "c1");
    assert_eq!(out[1].id, "c2");
}

#[test]
fn an_error_discards_collected_chunks() {
    let events = vec![
        SseEvent::Open,
        SseEvent::Message("{\"id\":\"c1\"}".to_string()),
        SseEvent::Decoded(chunk("c1")),
        SseEvent::TransportFailed("connection reset".to_string()),
    ];
    match consume_events(events) {
        Err(CompletionError::Transport(msg)) => assert_eq!(msg, "connection reset"),
        other => panic!("unexpected outcome: {:?}", other),
    }
}

#[test]
fn the_sentinel_is_not_decoded_and_seals_the_stream() {
    let events = vec![
        SseEvent::Open,
        SseEvent::Message("[DONE]".to_string()),
        SseEvent::Message("{\"id\":\"late\"}".to_string()),
        SseEvent::Decoded(chunk("late")),
    ];
    let out = consume_events(events).unwrap();
    assert!(out.is_empty());
}

#[test]
fn an_exhausted_source_keeps_what_arrived() {
    let events = vec![
        SseEvent::Open,
        SseEvent::Message("{\"id\":\"c1\"}".to_string()),
        SseEvent::Decoded(chunk("c1")),
        SseEvent::Ended,
    ];
    let out = consume_events(events).unwrap();
    assert_eq!(out.len(), 1);
    assert_eq!(out[0].id, "c1");
}

#[test]
fn a_malformed_chunk_fails_the_call() {
    let events = vec![
        SseEvent::Open,
        SseEvent::Message("not json".to_string()),
        SseEvent::Malformed("expected value".to_string()),
    ];
    match consume_events(events) {
        Err(CompletionError::Decode(msg)) => assert_eq!(msg, "expected value"),
        other => panic!("unexpected outcome: {:?}", other),
    }
}

#[test]
fn the_driver_is_told_what_to_do() {
    let mut consumer = StreamConsumer::new();
    assert!(matches!(consumer.step(SseEvent::Open), StreamAction::Pull));
    match consumer.step(SseEvent::Message("{\"id\":\"c1\"}".to_string())) {
        StreamAction::Decode(payload) => assert_eq!(payload, "{\"id\":\"c1\"}"),
        other => panic!("unexpected action: {:?}", other),
    }
    assert!(matches!(consumer.step(SseEvent::Decoded(chunk("c1"))), StreamAction::Pull));
    assert!(matches!(
        consumer.step(SseEvent::Message("[DONE]".to_string())),
        StreamAction::Close
    ));
    let out = consumer.finish().unwrap();
    assert_eq!(out.len(), 1);
    assert_eq!(out[0].id, "c1");
}
