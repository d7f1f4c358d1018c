//! One turn of a conversation: a tagged union over the four speaker roles.
//!
//! Every field is optional; the wire encoding drops absent fields entirely.
//! The assistant variant additionally carries an ordered list of tool calls.
//! The abstract content of a message is its [`MessageModel`]: the same
//! fields with every string taken to its character sequence. The wire
//! encoding of a message is a function of this model alone.

use vstd::prelude::*;

verus! {

/// A message for the completion endpoint, one variant per speaker role.
#[derive(Clone, Debug, Hash)]
pub enum Message {
    SystemMessage {
        content: Option<String>,
        name: Option<String>,
        role: Option<String>,
        tool_call_id: Option<String>,
    },
    UserMessage {
        content: Option<String>,
        name: Option<String>,
        role: Option<String>,
        tool_call_id: Option<String>,
    },
    AssistantMessage {
        content: Option<String>,
        name: Option<String>,
        role: Option<String>,
        tool_calls: Option<Vec<ToolCall>>,
        tool_call_id: Option<String>,
    },
    ToolMessage {
        content: Option<String>,
        name: Option<String>,
        role: Option<String>,
        tool_call_id: Option<String>,
    },
}

/// A structured function-invocation request emitted by the assistant role.
#[derive(Clone, Debug, Hash)]
pub struct ToolCall {
    pub id: Option<String>,
    pub tool_type: Option<String>,
    pub function: AssistantFunc,
}

/// The function descriptor of a tool call: a name and opaque
/// string-encoded arguments.
#[derive(Clone, Debug, Hash)]
pub struct AssistantFunc {
    pub arguments: Option<String>,
    pub name: Option<String>,
}

/// The abstract content of an optional string field.
pub open spec fn opt_view(v: Option<String>) -> Option<Seq<char>> {
    match v {
        Some(s) => Some(s@),
        None => None,
    }
}

/// The abstract content of a [`Message`].
pub enum MessageModel {
    System {
        content: Option<Seq<char>>,
        name: Option<Seq<char>>,
        role: Option<Seq<char>>,
        tool_call_id: Option<Seq<char>>,
    },
    User {
        content: Option<Seq<char>>,
        name: Option<Seq<char>>,
        role: Option<Seq<char>>,
        tool_call_id: Option<Seq<char>>,
    },
    Assistant {
        content: Option<Seq<char>>,
        name: Option<Seq<char>>,
        role: Option<Seq<char>>,
        tool_calls: Option<Seq<ToolCallModel>>,
        tool_call_id: Option<Seq<char>>,
    },
    Tool {
        content: Option<Seq<char>>,
        name: Option<Seq<char>>,
        role: Option<Seq<char>>,
        tool_call_id: Option<Seq<char>>,
    },
}

/// The abstract content of a [`ToolCall`].
pub struct ToolCallModel {
    pub id: Option<Seq<char>>,
    pub tool_type: Option<Seq<char>>,
    pub function: AssistantFuncModel,
}

/// The abstract content of an [`AssistantFunc`].
pub struct AssistantFuncModel {
    pub arguments: Option<Seq<char>>,
    pub name: Option<Seq<char>>,
}

impl View for AssistantFunc {
    type V = AssistantFuncModel;

    open spec fn view(&self) -> AssistantFuncModel {
        AssistantFuncModel { arguments: opt_view(self.arguments), name: opt_view(self.name) }
    }
}

impl View for ToolCall {
    type V = ToolCallModel;

    open spec fn view(&self) -> ToolCallModel {
        ToolCallModel {
            id: opt_view(self.id),
            tool_type: opt_view(self.tool_type),
            function: self.function@,
        }
    }
}

/// The abstract content of an optional tool-call list.
pub open spec fn opt_tool_calls_view(v: Option<Vec<ToolCall>>) -> Option<Seq<ToolCallModel>> {
    match v {
        Some(ts) => Some(ts@.map_values(|t: ToolCall| t@)),
        None => None,
    }
}

impl View for Message {
    type V = MessageModel;

    open spec fn view(&self) -> MessageModel {
        match *self {
            Message::SystemMessage { content, name, role, tool_call_id } => MessageModel::System {
                content: opt_view(content),
                name: opt_view(name),
                role: opt_view(role),
                tool_call_id: opt_view(tool_call_id),
            },
            Message::UserMessage { content, name, role, tool_call_id } => MessageModel::User {
                content: opt_view(content),
                name: opt_view(name),
                role: opt_view(role),
                tool_call_id: opt_view(tool_call_id),
            },
            Message::AssistantMessage {
                content,
                name,
                role,
                tool_calls,
                tool_call_id,
            } => MessageModel::Assistant {
                content: opt_view(content),
                name: opt_view(name),
                role: opt_view(role),
                tool_calls: opt_tool_calls_view(tool_calls),
                tool_call_id: opt_view(tool_call_id),
            },
            Message::ToolMessage { content, name, role, tool_call_id } => MessageModel::Tool {
                content: opt_view(content),
                name: opt_view(name),
                role: opt_view(role),
                tool_call_id: opt_view(tool_call_id),
            },
        }
    }
}

} // verus!
