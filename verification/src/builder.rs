//! Staged construction of a completion request.
//!
//! Each configuration method consumes the current builder and returns an
//! updated one, so two builders derived from one origin share no hidden
//! state. `build` is a one-way finalization into an immutable [`Request`];
//! nothing can be edited afterwards. The defaults match the endpoint's:
//! penalties zero, one choice, temperature and top_p one, text response
//! format, no streaming, every optional field unset.

use vstd::prelude::*;

use crate::error::{CompletionError, ValidationError};
use crate::message::Message;
use crate::num::Number;
use crate::request::{Request, ResponseFormat, StopEnum, Tool, ToolChoiceEnum};

verus! {

/// A completion request under construction.
#[derive(Clone, Debug)]
pub struct RequestBuilder {
    pub logit_bias: Option<String>,
    pub logprobs: bool,
    pub frequency_penalty: Number,
    pub max_tokens: Option<u32>,
    pub messages: Vec<Message>,
    pub model: String,
    pub n: u32,
    pub presence_penalty: Number,
    pub response_format: ResponseFormat,
    pub seed: Option<i32>,
    pub stop: Option<StopEnum>,
    pub stream: bool,
    pub temperature: Number,
    pub tool_choice: Option<ToolChoiceEnum>,
    pub tools: Option<Vec<Tool>>,
    pub top_logprobs: Option<u8>,
    pub top_p: Number,
    pub user: Option<String>,
}

impl RequestBuilder {
    /// The sampling controls are in the representation this crate renders.
    pub open spec fn wf(self) -> bool {
        self.frequency_penalty.wf() && self.presence_penalty.wf() && self.temperature.wf()
            && self.top_p.wf()
    }

    /// A builder for `model` with every parameter at its default: penalties
    /// zero, one choice, temperature and top_p one, text response format,
    /// no streaming, optional fields unset, message list empty.
    pub fn new(model: String) -> (r: RequestBuilder)
        ensures
            r == (RequestBuilder {
                logit_bias: None,
                logprobs: false,
                frequency_penalty: Number { neg: false, mantissa: 0, scale: 0 },
                max_tokens: None,
                messages: r.messages,
                model: model,
                n: 1,
                presence_penalty: Number { neg: false, mantissa: 0, scale: 0 },
                response_format: r.response_format,
                seed: None,
                stop: None,
                stream: false,
                temperature: Number { neg: false, mantissa: 1, scale: 0 },
                tool_choice: None,
                tools: None,
                top_logprobs: None,
                top_p: Number { neg: false, mantissa: 1, scale: 0 },
                user: None,
            }),
            r.messages@ == Seq::<Message>::empty(),
            r.response_format.response_type@ == "text"@,
            r.wf(),
    {
        RequestBuilder {
            logit_bias: None,
            logprobs: false,
            frequency_penalty: Number::whole(0),
            max_tokens: None,
            messages: Vec::new(),
            model,
            n: 1,
            presence_penalty: Number::whole(0),
            response_format: ResponseFormat { response_type: "text".to_owned() },
            seed: None,
            stop: None,
            stream: false,
            temperature: Number::whole(1),
            tool_choice: None,
            tools: None,
            top_logprobs: None,
            top_p: Number::whole(1),
            user: None,
        }
    }

    /// Freezes the builder into an immutable request, field for field.
    pub fn build(self) -> (r: Request)
        ensures
            r == (Request {
                logit_bias: self.logit_bias,
                logprobs: self.logprobs,
                frequency_penalty: self.frequency_penalty,
                max_tokens: self.max_tokens,
                messages: self.messages,
                model: self.model,
                n: self.n,
                presence_penalty: self.presence_penalty,
                response_format: self.response_format,
                seed: self.seed,
                stop: self.stop,
                stream: self.stream,
                temperature: self.temperature,
                tool_choice: self.tool_choice,
                tools: self.tools,
                top_logprobs: self.top_logprobs,
                top_p: self.top_p,
                user: self.user,
            }),
            self.wf() ==> r.wf(),
    {
        Request {
            logit_bias: self.logit_bias,
            logprobs: self.logprobs,
            frequency_penalty: self.frequency_penalty,
            max_tokens: self.max_tokens,
            messages: self.messages,
            model: self.model,
            n: self.n,
            presence_penalty: self.presence_penalty,
            response_format: self.response_format,
            seed: self.seed,
            stop: self.stop,
            stream: self.stream,
            temperature: self.temperature,
            tool_choice: self.tool_choice,
            tools: self.tools,
            top_logprobs: self.top_logprobs,
            top_p: self.top_p,
            user: self.user,
        }
    }

    /// Sets the logit-bias value, given as its raw JSON text.
    pub fn with_logit_bias(self, logit_bias: String) -> (r: RequestBuilder)
        ensures
            r == (RequestBuilder { logit_bias: Some(logit_bias), ..self }),
    {
        RequestBuilder { logit_bias: Some(logit_bias), ..self }
    }

    /// Sets the logprobs flag.
    pub fn with_logprobs(self, logprobs: bool) -> (r: RequestBuilder)
        ensures
            r == (RequestBuilder { logprobs, ..self }),
    {
        RequestBuilder { logprobs, ..self }
    }

    /// Sets the frequency penalty.
    pub fn with_frequency_penalty(self, penalty: Number) -> (r: RequestBuilder)
        requires
            penalty.wf(),
        ensures
            r == (RequestBuilder { frequency_penalty: penalty, ..self }),
    {
        RequestBuilder { frequency_penalty: penalty, ..self }
    }

    /// Sets the token budget.
    pub fn with_max_tokens(self, n: u32) -> (r: RequestBuilder)
        ensures
            r == (RequestBuilder { max_tokens: Some(n), ..self }),
    {
        RequestBuilder { max_tokens: Some(n), ..self }
    }

    /// Replaces the message list. A request must carry at least one
    /// message, so an empty list is rejected before any network activity.
    pub fn with_messages(self, msgs: Vec<Message>) -> (r: Result<RequestBuilder, CompletionError>)
        ensures
            msgs@.len() == 0 ==> r == Err::<RequestBuilder, CompletionError>(
                CompletionError::Validation(ValidationError::EmptyHistory),
            ),
            msgs@.len() > 0 ==> r == Ok::<RequestBuilder, CompletionError>(
                RequestBuilder { messages: msgs, ..self },
            ),
    {
        if msgs.len() == 0 {
            Err(CompletionError::Validation(ValidationError::EmptyHistory))
        } else {
            Ok(RequestBuilder { messages: msgs, ..self })
        }
    }

    /// Sets the model id.
    pub fn with_model(self, model: &str) -> (r: RequestBuilder)
        ensures
            r.model@ == model@,
            r == (RequestBuilder { model: r.model, ..self }),
    {
        RequestBuilder { model: model.to_owned(), ..self }
    }

    /// Sets the number of choices to generate.
    pub fn with_n(self, n: u32) -> (r: RequestBuilder)
        ensures
            r == (RequestBuilder { n, ..self }),
    {
        RequestBuilder { n, ..self }
    }

    /// Sets the presence penalty.
    pub fn with_presence_penalty(self, penalty: Number) -> (r: RequestBuilder)
        requires
            penalty.wf(),
        ensures
            r == (RequestBuilder { presence_penalty: penalty, ..self }),
    {
        RequestBuilder { presence_penalty: penalty, ..self }
    }

    /// Sets the response-format tag.
    pub fn with_response_fmt(self, fmt: ResponseFormat) -> (r: RequestBuilder)
        ensures
            r == (RequestBuilder { response_format: fmt, ..self }),
    {
        RequestBuilder { response_format: fmt, ..self }
    }

    /// Sets the sampling seed.
    pub fn with_seed(self, seed: i32) -> (r: RequestBuilder)
        ensures
            r == (RequestBuilder { seed: Some(seed), ..self }),
    {
        RequestBuilder { seed: Some(seed), ..self }
    }

    /// Sets a single-token stop criterion; it replaces any earlier stop
    /// criterion, so the two shapes stay mutually exclusive.
    pub fn with_stop(self, stop: &str) -> (r: RequestBuilder)
        ensures
            r.stop matches Some(s) && s@ == crate::request::StopModel::Token(stop@),
            r == (RequestBuilder { stop: r.stop, ..self }),
    {
        RequestBuilder { stop: Some(StopEnum::Token(stop.to_owned())), ..self }
    }

    /// Sets an ordered multi-token stop criterion; it replaces any earlier
    /// stop criterion, so the two shapes stay mutually exclusive.
    pub fn with_stops(self, stops: Vec<String>) -> (r: RequestBuilder)
        ensures
            r == (RequestBuilder { stop: Some(StopEnum::Tokens(stops)), ..self }),
    {
        RequestBuilder { stop: Some(StopEnum::Tokens(stops)), ..self }
    }

    /// Sets the stream flag: the request asks for an event stream when it
    /// is on, one buffered response when it is off.
    pub fn with_stream(self, stream: bool) -> (r: RequestBuilder)
        ensures
            r == (RequestBuilder { stream, ..self }),
    {
        RequestBuilder { stream, ..self }
    }

    /// Sets the sampling temperature.
    pub fn with_temperature(self, temp: Number) -> (r: RequestBuilder)
        requires
            temp.wf(),
        ensures
            r == (RequestBuilder { temperature: temp, ..self }),
    {
        RequestBuilder { temperature: temp, ..self }
    }

    /// Chooses one concrete tool.
    pub fn with_tool_choice(self, tool: Tool) -> (r: RequestBuilder)
        ensures
            r == (RequestBuilder { tool_choice: Some(ToolChoiceEnum::Tool(tool)), ..self }),
    {
        RequestBuilder { tool_choice: Some(ToolChoiceEnum::Tool(tool)), ..self }
    }

    /// Lets the endpoint choose tools on its own.
    pub fn with_auto_tool_choice(self) -> (r: RequestBuilder)
        ensures
            r.tool_choice matches Some(c) && c@ == crate::request::ToolChoiceModel::Str("auto"@),
            r == (RequestBuilder { tool_choice: r.tool_choice, ..self }),
    {
        RequestBuilder { tool_choice: Some(ToolChoiceEnum::Str("auto".to_owned())), ..self }
    }

    /// Sets the tool declarations.
    pub fn with_tools(self, tools: Vec<Tool>) -> (r: RequestBuilder)
        ensures
            r == (RequestBuilder { tools: Some(tools), ..self }),
    {
        RequestBuilder { tools: Some(tools), ..self }
    }

    /// Sets how many top log-probabilities to return.
    pub fn with_top_logprobs(self, prob: u8) -> (r: RequestBuilder)
        ensures
            r == (RequestBuilder { top_logprobs: Some(prob), ..self }),
    {
        RequestBuilder { top_logprobs: Some(prob), ..self }
    }

    /// Sets the nucleus-sampling bound.
    pub fn with_top_p(self, top_p: Number) -> (r: RequestBuilder)
        requires
            top_p.wf(),
        ensures
            r == (RequestBuilder { top_p, ..self }),
    {
        RequestBuilder { top_p, ..self }
    }

    /// Sets the end-user tag.
    pub fn with_user(self, user: &str) -> (r: RequestBuilder)
        ensures
            r.user matches Some(u) && u@ == user@,
            r == (RequestBuilder { user: r.user, ..self }),
    {
        RequestBuilder { user: Some(user.to_owned()), ..self }
    }

    /// Whether the request under construction asks for a streamed response.
    pub fn is_stream(&self) -> (r: bool)
        ensures
            r == self.stream,
    {
        self.stream
    }
}

} // verus!
