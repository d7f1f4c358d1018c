//! The completion-request value: an immutable set of parameters, frozen by
//! the builder, plus the shapes it is built from.
//!
//! The stop criterion is exactly one of two shapes: a single token or an
//! ordered token list. The tool-choice policy is either the literal policy
//! string or one concrete tool. Fields the endpoint treats as optional are
//! held as `Option` and dropped from the wire when absent. Raw JSON values
//! the caller supplies pre-encoded (`logit_bias`, tool parameters) are held
//! as their JSON text and spliced into the encoding verbatim.

use vstd::prelude::*;

use crate::message::{Message, MessageModel};
use crate::num::Number;

verus! {

/// The parameters of one completion call, as the endpoint takes them.
#[derive(Clone, Debug)]
pub struct Request {
    pub logit_bias: Option<String>,
    pub logprobs: bool,
    pub frequency_penalty: Number,
    pub max_tokens: Option<u32>,
    pub messages: Vec<Message>,
    pub model: String,
    pub n: u32,
    pub presence_penalty: Number,
    pub response_format: ResponseFormat,
    pub seed: Option<i32>,
    pub stop: Option<StopEnum>,
    pub stream: bool,
    pub temperature: Number,
    pub tool_choice: Option<ToolChoiceEnum>,
    pub tools: Option<Vec<Tool>>,
    pub top_logprobs: Option<u8>,
    pub top_p: Number,
    pub user: Option<String>,
}

/// The stop criterion: one token, or an ordered list of tokens, never both.
#[derive(Clone, Debug)]
pub enum StopEnum {
    Token(String),
    Tokens(Vec<String>),
}

/// A tool the model may call.
#[derive(Clone, Debug)]
pub struct Tool {
    pub tool_type: String,
    pub function: Function,
}

/// The declaration of a tool's function: name, description and a raw JSON
/// parameter schema.
#[derive(Clone, Debug)]
pub struct Function {
    pub description: Option<String>,
    pub name: Option<String>,
    pub parameters: Option<String>,
}

/// The response-format tag of a request.
#[derive(Clone, Debug)]
pub struct ResponseFormat {
    pub response_type: String,
}

/// The tool-choice policy: a policy string, or one concrete tool.
#[derive(Clone, Debug)]
pub enum ToolChoiceEnum {
    Str(String),
    Tool(Tool),
}

/// The abstract content of a [`Function`].
pub struct FunctionModel {
    pub description: Option<Seq<char>>,
    pub name: Option<Seq<char>>,
    pub parameters: Option<Seq<char>>,
}

/// The abstract content of a [`Tool`].
pub struct ToolModel {
    pub tool_type: Seq<char>,
    pub function: FunctionModel,
}

/// The abstract content of a [`StopEnum`].
pub enum StopModel {
    Token(Seq<char>),
    Tokens(Seq<Seq<char>>),
}

/// The abstract content of a [`ToolChoiceEnum`].
pub enum ToolChoiceModel {
    Str(Seq<char>),
    Tool(ToolModel),
}

/// The abstract content of a [`Request`].
pub struct RequestModel {
    pub logit_bias: Option<Seq<char>>,
    pub logprobs: bool,
    pub frequency_penalty: Number,
    pub max_tokens: Option<u32>,
    pub messages: Seq<MessageModel>,
    pub model: Seq<char>,
    pub n: u32,
    pub presence_penalty: Number,
    pub response_format: Seq<char>,
    pub seed: Option<i32>,
    pub stop: Option<StopModel>,
    pub stream: bool,
    pub temperature: Number,
    pub tool_choice: Option<ToolChoiceModel>,
    pub tools: Option<Seq<ToolModel>>,
    pub top_logprobs: Option<u8>,
    pub top_p: Number,
    pub user: Option<Seq<char>>,
}

impl View for Function {
    type V = FunctionModel;

    open spec fn view(&self) -> FunctionModel {
        FunctionModel {
            description: crate::message::opt_view(self.description),
            name: crate::message::opt_view(self.name),
            parameters: crate::message::opt_view(self.parameters),
        }
    }
}

impl View for Tool {
    type V = ToolModel;

    open spec fn view(&self) -> ToolModel {
        ToolModel { tool_type: self.tool_type@, function: self.function@ }
    }
}

impl View for StopEnum {
    type V = StopModel;

    open spec fn view(&self) -> StopModel {
        match *self {
            StopEnum::Token(t) => StopModel::Token(t@),
            StopEnum::Tokens(ts) => StopModel::Tokens(ts@.map_values(|s: String| s@)),
        }
    }
}

impl View for ToolChoiceEnum {
    type V = ToolChoiceModel;

    open spec fn view(&self) -> ToolChoiceModel {
        match *self {
            ToolChoiceEnum::Str(s) => ToolChoiceModel::Str(s@),
            ToolChoiceEnum::Tool(t) => ToolChoiceModel::Tool(t@),
        }
    }
}

/// The abstract content of an optional value with a [`View`].
pub open spec fn opt_model<T: View>(v: Option<T>) -> Option<T::V> {
    match v {
        Some(x) => Some(x@),
        None => None,
    }
}

impl View for Request {
    type V = RequestModel;

    open spec fn view(&self) -> RequestModel {
        RequestModel {
            logit_bias: crate::message::opt_view(self.logit_bias),
            logprobs: self.logprobs,
            frequency_penalty: self.frequency_penalty,
            max_tokens: self.max_tokens,
            messages: self.messages@.map_values(|m: Message| m@),
            model: self.model@,
            n: self.n,
            presence_penalty: self.presence_penalty,
            response_format: self.response_format.response_type@,
            seed: self.seed,
            stop: opt_model(self.stop),
            stream: self.stream,
            temperature: self.temperature,
            tool_choice: opt_model(self.tool_choice),
            tools: match self.tools {
                Some(ts) => Some(ts@.map_values(|t: Tool| t@)),
                None => None,
            },
            top_logprobs: self.top_logprobs,
            top_p: self.top_p,
            user: crate::message::opt_view(self.user),
        }
    }
}

impl Request {
    /// The sampling controls are in the representation this crate renders.
    pub open spec fn wf(self) -> bool {
        self.frequency_penalty.wf() && self.presence_penalty.wf() && self.temperature.wf()
            && self.top_p.wf()
    }

    /// Whether this request asks for a streamed response.
    pub fn is_stream(&self) -> (r: bool)
        ensures
            r == self.stream,
    {
        self.stream
    }
}

} // verus!
