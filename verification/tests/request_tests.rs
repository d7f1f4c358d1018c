use groq::builder::RequestBuilder;
use groq::encode::encode_request;
use groq::message::Message;
use groq::num::Number;
use groq::request::{Request, ResponseFormat, StopEnum};

fn wire(req: &Request) -> String {
    String::from_utf8(encode_request(req)).unwrap()
}

fn default_target(model: &str) -> Request {
    Request {
        logit_bias: None,
        logprobs: false,
        frequency_penalty: Number::whole(0),
        max_tokens: None,
        messages: Vec::new(),
        model: model.to_string(),
        n: 1,
        presence_penalty: Number::whole(0),
        response_format: ResponseFormat { response_type: "text".into() },
        seed: None,
        stop: None,
        stream: false,
        temperature: Number::whole(1),
        tool_choice: None,
        tools: None,
        top_logprobs: None,
        top_p: Number::whole(1),
        user: None,
    }
}

#[test]
fn init_request() {
    let target = default_target("");
    let req2 = RequestBuilder::new("".to_string()).build();
    assert_eq!(wire(&target), wire(&req2));
}

#[test]
fn with_stop_enum() {
    let mut target = default_target("");
    target.stop = Some(StopEnum::Token("endline".into()));
    let req2 = RequestBuilder::new("".to_string()).with_stop("endline").build();
    let out_json = wire(&req2);
    assert_eq!(wire(&target), out_json);

    let stops = vec!["endline".to_string()];
    target.stop = Some(StopEnum::Tokens(stops.clone()));
    let req2 = RequestBuilder::new("".to_string()).with_stops(stops).build();
    let out_json = wire(&req2);
    assert_eq!(wire(&target), out_json);
}

#[test]
fn with_messages() {
    let messages = vec![
        Message::UserMessage { content: None, name: None, role: None, tool_call_id: None },
        Message::SystemMessage { content: None, name: None, role: None, tool_call_id: None },
        Message::AssistantMessage {
            content: None,
            name: None,
            role: None,
            tool_call_id: None,
            tool_calls: None,
        },
        Message::ToolMessage { content: None, name: None, role: None, tool_call_id: None },
    ];
    let mut target = default_target("");
    target.messages = clone_history(&messages);
    let req2 = RequestBuilder::new("".to_string()).with_messages(messages).unwrap().build();

    let target_json = wire(&target);
    let out_json = wire(&req2);
    assert_eq!(target_json, out_json);
    println!("{:?}", target_json);
    println!("{:?}", out_json);
}

fn clone_history(messages: &[Message]) -> Vec<Message> {
    messages.to_vec()
}

#[test]
fn default_request_wire_shape() {
    let req = RequestBuilder::new("".to_string()).build();
    let text = wire(&req);
    assert_eq!(
        text,
        "{\"logprobs\":false,\"frequency_penalty\":0,\"messages\":[],\"model\":\"\",\"n\":1,\
         \"presence_penalty\":0,\"response_format\":{\"type\":\"text\"},\"stream\":false,\
         \"temperature\":1,\"top_p\":1}"
    );
    assert!(!text.contains("null"));
}

#[test]
fn stop_scalar_and_array_wire_shape() {
    let single = RequestBuilder::new("m".to_string()).with_stop("end").build();
    assert!(wire(&single).contains("\"stop\":\"end\""));

    let many = RequestBuilder::new("m".to_string())
        .with_stops(vec!["a".to_string(), "b".to_string()])
        .build();
    assert!(wire(&many).contains("\"stop\":[\"a\",\"b\"]"));
}

#[test]
fn builder_setters_reach_the_wire() {
    let req = RequestBuilder::new("mixtral-8x7b-32768".to_string())
        .with_max_tokens(512)
        .with_n(2)
        .with_seed(-7)
        .with_temperature(Number::scaled(false, 7, 1))
        .with_frequency_penalty(Number::scaled(true, 5, 1))
        .with_top_logprobs(3)
        .with_logprobs(true)
        .with_user("tester")
        .build();
    let text = wire(&req);
    assert!(text.contains("\"model\":\"mixtral-8x7b-32768\""));
    assert!(text.contains("\"max_tokens\":512"));
    assert!(text.contains("\"n\":2"));
    assert!(text.contains("\"seed\":-7"));
    assert!(text.contains("\"temperature\":0.7"));
    assert!(text.contains("\"frequency_penalty\":-0.5"));
    assert!(text.contains("\"top_logprobs\":3"));
    assert!(text.contains("\"logprobs\":true"));
    assert!(text.contains("\"user\":\"tester\""));
}

#[test]
fn extreme_seed_values_render_exactly() {
    let low = RequestBuilder::new("m".to_string()).with_seed(i32::MIN).build();
    assert!(wire(&low).contains("\"seed\":-2147483648"));
    let high = RequestBuilder::new("m".to_string()).with_seed(i32::MAX).build();
    assert!(wire(&high).contains("\"seed\":2147483647"));
    let zero = RequestBuilder::new("m".to_string()).with_seed(0).build();
    assert!(wire(&zero).contains("\"seed\":0"));
}

#[test]
fn identical_content_same_bytes_differing_message_differs() {
    let history = vec![Message::UserMessage {
        role: Some("user".to_string()),
        content: Some("Explain the importance of fast language models".to_string()),
        name: None,
        tool_call_id: None,
    }];
    let r1 = RequestBuilder::new("m".to_string())
        .with_messages(clone_history(&history))
        .unwrap()
        .build();
    let r2 = RequestBuilder::new("m".to_string())
        .with_messages(clone_history(&history))
        .unwrap()
        .build();
    assert_eq!(encode_request(&r1), encode_request(&r2));

    let other = vec![Message::UserMessage {
        role: Some("user".to_string()),
        content: Some("Explain the importance of slow language models".to_string()),
        name: None,
        tool_call_id: None,
    }];
    let r3 = RequestBuilder::new("m".to_string()).with_messages(other).unwrap().build();
    assert_ne!(encode_request(&r1), encode_request(&r3));
}

#[test]
fn encoded_request_is_valid_json() {
    let history = vec![Message::UserMessage {
        role: Some("user".to_string()),
        content: Some("quote \" backslash \\ newline \n done".to_string()),
        name: None,
        tool_call_id: None,
    }];
    let req = RequestBuilder::new("mixtral-8x7b-32768".to_string())
        .with_messages(history)
        .unwrap()
        .with_temperature(Number::scaled(false, 7, 1))
        .build();
    let value: serde_json::Value = serde_json::from_slice(&encode_request(&req)).unwrap();
    assert_eq!(value["model"], serde_json::Value::String("mixtral-8x7b-32768".to_string()));
    assert_eq!(value["n"].as_u64(), Some(1));
    assert_eq!(value["temperature"].as_f64(), Some(0.7));
    assert_eq!(value["stream"].as_bool(), Some(false));
    assert_eq!(
        value["messages"][0]["content"].as_str(),
        Some("quote \" backslash \\ newline \n done")
    );
    assert!(value["messages"][0].get("name").is_none());
}
