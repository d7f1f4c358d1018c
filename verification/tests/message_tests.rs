use groq::encode::{append_message, append_tool_call};
use groq::message::{AssistantFunc, Message, ToolCall};

fn message_wire(m: &Message) -> String {
    let mut out: Vec<u8> = Vec::new();
    append_message(&mut out, m);
    String::from_utf8(out).unwrap()
}

#[test]
fn absent_fields_are_omitted_entirely() {
    let m = Message::UserMessage {
        content: Some("hi".to_string()),
        name: None,
        role: Some("user".to_string()),
        tool_call_id: None,
    };
    assert_eq!(message_wire(&m), "{\"content\":\"hi\",\"role\":\"user\"}");

    let empty = Message::SystemMessage { content: None, name: None, role: None, tool_call_id: None };
    assert_eq!(message_wire(&empty), "{}");
}

#[test]
fn string_content_is_escaped() {
    let m = Message::UserMessage {
        content: Some("a\"b\\c\nd\te\ru\x01v".to_string()),
        name: None,
        role: None,
        tool_call_id: None,
    };
    assert_eq!(message_wire(&m), "{\"content\":\"a\\\"b\\\\c\\nd\\te\\ru\\u0001v\"}");
}

#[test]
fn assistant_tool_calls_keep_their_order() {
    let call = |id: &str| ToolCall {
        id: Some(id.to_string()),
        tool_type: Some("function".to_string()),
        function: AssistantFunc {
            arguments: Some("{}".to_string()),
            name: Some("lookup".to_string()),
        },
    };
    let m = Message::AssistantMessage {
        content: None,
        name: None,
        role: Some("assistant".to_string()),
        tool_calls: Some(vec![call("one"), call("two")]),
        tool_call_id: None,
    };
    assert_eq!(
        message_wire(&m),
        "{\"role\":\"assistant\",\"tool_calls\":[\
         {\"id\":\"one\",\"type\":\"function\",\"function\":{\"arguments\":\"{}\",\"name\":\"lookup\"}},\
         {\"id\":\"two\",\"type\":\"function\",\"function\":{\"arguments\":\"{}\",\"name\":\"lookup\"}}]}"
    );
}

#[test]
fn tool_call_omits_absent_fields() {
    let t = ToolCall {
        id: None,
        tool_type: None,
        function: AssistantFunc { arguments: None, name: Some("f".to_string()) },
    };
    let mut out: Vec<u8> = Vec::new();
    append_tool_call(&mut out, &t);
    assert_eq!(String::from_utf8(out).unwrap(), "{\"function\":{\"name\":\"f\"}}");
}
