//! The completion client: credential, persistent conversation history, and
//! the dispatch decisions of one call.
//!
//! The client owns the credential and an append-only message history that
//! persists across calls; only the explicit append and clear operations
//! change it — dispatch never does. Preparing a call merges an explicit
//! copy of the history into the request, validates it, and checks that the
//! chosen path matches the request's stream flag; a caller error is
//! rejected here, before any network activity. The network itself lives
//! outside this crate: a driver sends the encoded request, and hands the
//! status and decoded body back to [`conclude_buffered`], or drives a
//! [`crate::stream::StreamConsumer`] for a streamed call.

use vstd::prelude::*;

use crate::builder::RequestBuilder;
use crate::error::{CompletionError, ValidationError};
use crate::message::{AssistantFunc, Message, MessageModel, ToolCall, opt_tool_calls_view,
    opt_view};
use crate::request::Request;
use crate::response::{ErrorBody, ErrorResponse, Response, StreamResponse};

verus! {

/// The result of one completion call: a single buffered response, or the
/// complete ordered chunk list of a streamed call.
#[derive(Clone, Debug)]
pub enum CompletionOption {
    NonStream(Response),
    Stream(Vec<StreamResponse>),
}

/// The dispatch path a request asks for.
#[derive(Clone, Copy, Debug, PartialEq, Eq, Structural)]
pub enum DispatchPath {
    /// One buffered response.
    Buffered,
    /// An event-stream of partial chunks.
    Streamed,
}

/// The abstract state of a client: its credential and the content of its
/// history, in order.
pub struct GroqModel {
    pub api_key: Seq<char>,
    pub history: Seq<MessageModel>,
}

/// A completion client: the credential and the persistent history.
#[derive(Clone, Debug, Hash)]
pub struct Groq {
    pub api_key: String,
    pub messages: Vec<Message>,
}

impl View for Groq {
    type V = GroqModel;

    open spec fn view(&self) -> GroqModel {
        GroqModel {
            api_key: self.api_key@,
            history: self.messages@.map_values(|m: Message| m@),
        }
    }
}

/// Relies on Vec::shrink_to: it only lowers spare capacity towards the
/// given bound; the contents stay exactly as they are.
#[verifier::external_body]
fn shrink_history(v: &mut Vec<Message>, min_capacity: usize)
    ensures
        final(v)@ == old(v)@,
{
    v.shrink_to(min_capacity)
}

impl Groq {
    /// A client for this credential, with an empty history.
    pub fn new(api_key: &str) -> (g: Groq)
        ensures
            g@.api_key == api_key@,
            g@.history == Seq::<MessageModel>::empty(),
            g.messages@ == Seq::<Message>::empty(),
    {
        let g = Groq { api_key: api_key.to_owned(), messages: Vec::new() };
        assert(g@.history =~= Seq::<MessageModel>::empty());
        g
    }

    /// Appends one message to the history; nothing else changes.
    pub fn add_message(self, msg: Message) -> (g: Groq)
        ensures
            g.api_key == self.api_key,
            g.messages@ == self.messages@.push(msg),
            g@.history == self@.history.push(msg@),
    {
        let mut g = self;
        g.messages.push(msg);
        assert(g@.history =~= self@.history.push(msg@));
        g
    }

    /// Appends the given messages to the history, in their order.
    pub fn add_messages(self, msgs: Vec<Message>) -> (g: Groq)
        ensures
            g.api_key == self.api_key,
            g.messages@ == self.messages@ + msgs@,
            g@.history == self@.history + msgs@.map_values(|m: Message| m@),
    {
        let mut g = self;
        let mut incoming = msgs;
        g.messages.append(&mut incoming);
        assert(g@.history =~= self@.history + msgs@.map_values(|m: Message| m@));
        g
    }

    /// Clears the history, keeping only a small spare capacity as a
    /// performance hint; the credential stays.
    pub fn clear_messages(self) -> (g: Groq)
        ensures
            g.api_key == self.api_key,
            g.messages@ == Seq::<Message>::empty(),
            g@.history == Seq::<MessageModel>::empty(),
    {
        let mut g = self;
        g.messages.clear();
        shrink_history(&mut g.messages, 3);
        assert(g@.history =~= Seq::<MessageModel>::empty());
        g
    }

    /// Merges a copy of the history into the request and freezes it for
    /// the buffered path. An empty history is rejected first; a request
    /// marked for streaming does not belong on this path and is rejected
    /// next — both before any network activity.
    pub fn prepare_buffered(&self, req: RequestBuilder) -> (r: Result<Request, CompletionError>)
        ensures
            self.messages@.len() == 0 ==> r == Err::<Request, CompletionError>(
                CompletionError::Validation(ValidationError::EmptyHistory),
            ),
            self.messages@.len() > 0 && req.stream ==> r == Err::<Request, CompletionError>(
                CompletionError::Validation(ValidationError::StreamFlagMismatch),
            ),
            self.messages@.len() > 0 && !req.stream ==> (match r {
                Ok(q) => q == (Request {
                    messages: q.messages,
                    logit_bias: req.logit_bias,
                    logprobs: req.logprobs,
                    frequency_penalty: req.frequency_penalty,
                    max_tokens: req.max_tokens,
                    model: req.model,
                    n: req.n,
                    presence_penalty: req.presence_penalty,
                    response_format: req.response_format,
                    seed: req.seed,
                    stop: req.stop,
                    stream: req.stream,
                    temperature: req.temperature,
                    tool_choice: req.tool_choice,
                    tools: req.tools,
                    top_logprobs: req.top_logprobs,
                    top_p: req.top_p,
                    user: req.user,
                }) && q@.messages == self@.history && (req.wf() ==> q.wf()),
                Err(_) => false,
            }),
    {
        if self.messages.len() == 0 {
            return Err(CompletionError::Validation(ValidationError::EmptyHistory));
        }
        if req.is_stream() {
            return Err(CompletionError::Validation(ValidationError::StreamFlagMismatch));
        }
        let merged = copy_messages(&self.messages);
        match req.with_messages(merged) {
            Ok(b) => Ok(b.build()),
            Err(e) => Err(e),
        }
    }

    /// Merges a copy of the history into the request and freezes it for
    /// the streaming path. An empty history is rejected first; this path
    /// never opens a connection for a request not explicitly marked for
    /// streaming, independent of the caller's routing decision.
    pub fn prepare_streamed(&self, req: RequestBuilder) -> (r: Result<Request, CompletionError>)
        ensures
            self.messages@.len() == 0 ==> r == Err::<Request, CompletionError>(
                CompletionError::Validation(ValidationError::EmptyHistory),
            ),
            self.messages@.len() > 0 && !req.stream ==> r == Err::<Request, CompletionError>(
                CompletionError::Validation(ValidationError::StreamFlagMismatch),
            ),
            self.messages@.len() > 0 && req.stream ==> (match r {
                Ok(q) => q == (Request {
                    messages: q.messages,
                    logit_bias: req.logit_bias,
                    logprobs: req.logprobs,
                    frequency_penalty: req.frequency_penalty,
                    max_tokens: req.max_tokens,
                    model: req.model,
                    n: req.n,
                    presence_penalty: req.presence_penalty,
                    response_format: req.response_format,
                    seed: req.seed,
                    stop: req.stop,
                    stream: req.stream,
                    temperature: req.temperature,
                    tool_choice: req.tool_choice,
                    tools: req.tools,
                    top_logprobs: req.top_logprobs,
                    top_p: req.top_p,
                    user: req.user,
                }) && q@.messages == self@.history && (req.wf() ==> q.wf()),
                Err(_) => false,
            }),
    {
        if self.messages.len() == 0 {
            return Err(CompletionError::Validation(ValidationError::EmptyHistory));
        }
        if !req.is_stream() {
            return Err(CompletionError::Validation(ValidationError::StreamFlagMismatch));
        }
        let merged = copy_messages(&self.messages);
        match req.with_messages(merged) {
            Ok(b) => Ok(b.build()),
            Err(e) => Err(e),
        }
    }
}

/// The path a request asks for, by its stream flag.
pub fn dispatch_path(req: &RequestBuilder) -> (p: DispatchPath)
    ensures
        p == (if req.stream {
            DispatchPath::Streamed
        } else {
            DispatchPath::Buffered
        }),
{
    if req.is_stream() {
        DispatchPath::Streamed
    } else {
        DispatchPath::Buffered
    }
}

/// What the driver decoded out of a buffered transport reply.
#[derive(Clone, Debug)]
pub enum DecodedReply {
    /// The success body, decoded — only a success status carries one.
    Envelope(Response),
    /// The structured error body of a non-success status.
    ErrorEnvelope(ErrorBody),
    /// The body did not match its schema; the decoder's message.
    Malformed(String),
}

/// Whether a transport status carries a success body.
pub fn expects_success_body(status: u16) -> (r: bool)
    ensures
        r == (status == 200),
{
    status == 200
}

/// The outcome of a buffered call from the transport status and the
/// decoded body: the envelope on success, the error body with the
/// observed status attached on failure, and a decode failure as its own
/// category.
pub open spec fn spec_conclude_buffered(status: u16, reply: DecodedReply) -> Result<
    CompletionOption,
    CompletionError,
> {
    match reply {
        DecodedReply::Envelope(resp) => Ok(CompletionOption::NonStream(resp)),
        DecodedReply::ErrorEnvelope(b) => Err(
            CompletionError::Api(ErrorResponse { error: b, code: status }),
        ),
        DecodedReply::Malformed(m) => Err(CompletionError::Decode(m)),
    }
}

/// Concludes a buffered call; see [`spec_conclude_buffered`].
pub fn conclude_buffered(status: u16, reply: DecodedReply) -> (r: Result<
    CompletionOption,
    CompletionError,
>)
    requires
        reply is Envelope ==> status == 200,
        reply is ErrorEnvelope ==> status != 200,
    ensures
        r == spec_conclude_buffered(status, reply),
{
    match reply {
        DecodedReply::Envelope(resp) => Ok(CompletionOption::NonStream(resp)),
        DecodedReply::ErrorEnvelope(b) => Err(
            CompletionError::Api(ErrorResponse { error: b, code: status }),
        ),
        DecodedReply::Malformed(m) => Err(CompletionError::Decode(m)),
    }
}

/// A buffered call whose body decoded yields either the response envelope
/// or an endpoint error that carries exactly the status the transport
/// observed.
pub proof fn lemma_buffered_outcome(status: u16, reply: DecodedReply)
    requires
        !(reply is Malformed),
    ensures
        (spec_conclude_buffered(status, reply) matches Ok(o) && o is NonStream) || (
        spec_conclude_buffered(status, reply) matches Err(e) && (e matches CompletionError::Api(er)
            && er.code == status)),
{
}

/// A copy of an optional string with the same content.
fn copy_opt_string(v: &Option<String>) -> (r: Option<String>)
    ensures
        opt_view(r) == opt_view(*v),
{
    match v {
        Some(s) => Some(s.clone()),
        None => None,
    }
}

/// A copy of a function descriptor with the same content.
fn copy_assistant_func(f: &AssistantFunc) -> (r: AssistantFunc)
    ensures
        r@ == f@,
{
    AssistantFunc { arguments: copy_opt_string(&f.arguments), name: copy_opt_string(&f.name) }
}

/// A copy of a tool call with the same content.
fn copy_tool_call(t: &ToolCall) -> (r: ToolCall)
    ensures
        r@ == t@,
{
    ToolCall {
        id: copy_opt_string(&t.id),
        tool_type: copy_opt_string(&t.tool_type),
        function: copy_assistant_func(&t.function),
    }
}

/// A copy of an optional tool-call list with the same content, in order.
fn copy_opt_tool_calls(v: &Option<Vec<ToolCall>>) -> (r: Option<Vec<ToolCall>>)
    ensures
        opt_tool_calls_view(r) == opt_tool_calls_view(*v),
{
    match v {
        Some(ts) => {
            let mut out: Vec<ToolCall> = Vec::new();
            let mut i: usize = 0;
            while i < ts.len()
                invariant
                    i <= ts@.len(),
                    out@.len() == i,
                    forall|k: int| 0 <= k < i ==> out@[k]@ == ts@[k]@,
                decreases ts@.len() - i,
            {
                out.push(copy_tool_call(&ts[i]));
                i += 1;
            }
            assert(out@.map_values(|t: ToolCall| t@) =~= ts@.map_values(|t: ToolCall| t@));
            Some(out)
        },
        None => None,
    }
}

/// A copy of one message with the same content.
fn copy_message(m: &Message) -> (r: Message)
    ensures
        r@ == m@,
{
    match m {
        Message::SystemMessage { content, name, role, tool_call_id } => Message::SystemMessage {
            content: copy_opt_string(content),
            name: copy_opt_string(name),
            role: copy_opt_string(role),
            tool_call_id: copy_opt_string(tool_call_id),
        },
        Message::UserMessage { content, name, role, tool_call_id } => Message::UserMessage {
            content: copy_opt_string(content),
            name: copy_opt_string(name),
            role: copy_opt_string(role),
            tool_call_id: copy_opt_string(tool_call_id),
        },
        Message::AssistantMessage {
            content,
            name,
            role,
            tool_calls,
            tool_call_id,
        } => Message::AssistantMessage {
            content: copy_opt_string(content),
            name: copy_opt_string(name),
            role: copy_opt_string(role),
            tool_calls: copy_opt_tool_calls(tool_calls),
            tool_call_id: copy_opt_string(tool_call_id),
        },
        Message::ToolMessage { content, name, role, tool_call_id } => Message::ToolMessage {
            content: copy_opt_string(content),
            name: copy_opt_string(name),
            role: copy_opt_string(role),
            tool_call_id: copy_opt_string(tool_call_id),
        },
    }
}

/// An explicit copy of the history with the same content, in order — the
/// merge into a request copies, so an in-flight call never observes later
/// history mutation.
fn copy_messages(ms: &Vec<Message>) -> (r: Vec<Message>)
    ensures
        r@.len() == ms@.len(),
        r@.map_values(|m: Message| m@) == ms@.map_values(|m: Message| m@),
{
    let mut out: Vec<Message> = Vec::new();
    let mut i: usize = 0;
    while i < ms.len()
        invariant
            i <= ms@.len(),
            out@.len() == i,
            forall|k: int| 0 <= k < i ==> out@[k]@ == ms@[k]@,
        decreases ms@.len() - i,
    {
        out.push(copy_message(&ms[i]));
        i += 1;
    }
    assert(out@.map_values(|m: Message| m@) =~= ms@.map_values(|m: Message| m@));
    out
}

} // verus!
