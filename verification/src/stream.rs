//! The event-stream consumption protocol of a streamed call.
//!
//! One streamed call opens one connection and consumes a strictly ordered
//! event sequence. [`StreamConsumer`] is the state machine that drives it:
//! the driver pulls one event at a time, hands each to [`StreamConsumer::step`],
//! and performs the returned action — pulling on, decoding one payload, or
//! closing the connection. Decoding happens outside this crate, so a
//! payload goes out with [`StreamAction::Decode`] and its result comes
//! back as the next event. The literal sentinel payload `"[DONE]"` ends
//! the stream; it is never decoded as data. On an error the chunks already
//! collected are discarded: the outcome is the error alone. Once closed,
//! a consumer never changes again, so nothing can follow the sentinel.

use vstd::prelude::*;

use crate::error::CompletionError;
use crate::response::StreamResponse;

verus! {

/// One event observed while consuming a streamed call.
#[derive(Clone, Debug)]
pub enum SseEvent {
    /// The connection opened.
    Open,
    /// An event arrived carrying this payload text.
    Message(String),
    /// The payload handed out for decoding came back as this chunk.
    Decoded(StreamResponse),
    /// The payload handed out for decoding did not match the schema.
    Malformed(String),
    /// The transport failed with this message.
    TransportFailed(String),
    /// The event source ended without a sentinel.
    Ended,
}

/// What the driver must do after a step.
#[derive(Clone, Debug)]
pub enum StreamAction {
    /// Pull the next event from the source.
    Pull,
    /// Decode this payload and hand the result back as the next event.
    Decode(String),
    /// Close the connection; the consumer holds the outcome.
    Close,
}

/// The control state of a consumer.
#[derive(Clone, Copy, Debug, PartialEq, Eq, Structural)]
pub enum StreamPhase {
    /// Waiting for the connection to open.
    Connecting,
    /// Consuming events.
    Active,
    /// A payload is out for decoding.
    Decoding,
    /// Closed with the collected chunks as the result.
    Done,
    /// Closed with an error as the only outcome.
    Failed,
}

/// The abstract state of a consumer: its phase, the chunks collected so
/// far in arrival order, and the fault that closed it, if one did.
pub struct ConsumerModel {
    pub phase: StreamPhase,
    pub chunks: Seq<StreamResponse>,
    pub fault: Option<CompletionError>,
}

impl ConsumerModel {
    /// A fault is recorded exactly when the consumer failed.
    pub open spec fn wf(self) -> bool {
        (self.phase is Failed) <==> (self.fault is Some)
    }

    /// A closed consumer: its outcome is settled.
    pub open spec fn is_closed(self) -> bool {
        self.phase is Done || self.phase is Failed
    }
}

/// The state a consumer starts in: connecting, nothing collected.
pub open spec fn spec_init() -> ConsumerModel {
    ConsumerModel { phase: StreamPhase::Connecting, chunks: Seq::empty(), fault: None }
}

/// Whether a payload is the literal stream-termination sentinel.
pub open spec fn is_sentinel(s: Seq<char>) -> bool {
    s == "[DONE]"@
}

/// One transition of the consumption protocol. A closed consumer absorbs
/// every event unchanged. The sentinel closes with success; a transport
/// failure closes with the error and abandons the chunks; a decoded chunk
/// is appended in arrival order; an exhausted source closes with what was
/// collected.
pub open spec fn spec_step(m: ConsumerModel, ev: SseEvent) -> ConsumerModel {
    if m.is_closed() {
        m
    } else {
        match ev {
            SseEvent::Open => {
                if m.phase is Connecting {
                    ConsumerModel { phase: StreamPhase::Active, ..m }
                } else {
                    m
                }
            },
            SseEvent::Message(s) => {
                if m.phase is Connecting || m.phase is Active {
                    if is_sentinel(s@) {
                        ConsumerModel { phase: StreamPhase::Done, ..m }
                    } else {
                        ConsumerModel { phase: StreamPhase::Decoding, ..m }
                    }
                } else {
                    m
                }
            },
            SseEvent::Decoded(c) => {
                if m.phase is Decoding {
                    ConsumerModel { phase: StreamPhase::Active, chunks: m.chunks.push(c), ..m }
                } else {
                    m
                }
            },
            SseEvent::Malformed(e) => {
                if m.phase is Decoding {
                    ConsumerModel {
                        phase: StreamPhase::Failed,
                        fault: Some(CompletionError::Decode(e)),
                        ..m
                    }
                } else {
                    m
                }
            },
            SseEvent::TransportFailed(e) => ConsumerModel {
                phase: StreamPhase::Failed,
                fault: Some(CompletionError::Transport(e)),
                ..m
            },
            SseEvent::Ended => ConsumerModel { phase: StreamPhase::Done, ..m },
        }
    }
}

/// The state after consuming a whole event sequence in order.
pub open spec fn spec_run(m: ConsumerModel, events: Seq<SseEvent>) -> ConsumerModel
    decreases events.len(),
{
    if events.len() == 0 {
        m
    } else {
        spec_run(spec_step(m, events[0]), events.drop_first())
    }
}

/// A step keeps the fault recorded exactly on failure.
pub proof fn lemma_step_wf(m: ConsumerModel, ev: SseEvent)
    requires
        m.wf(),
    ensures
        spec_step(m, ev).wf(),
{
}

/// Nothing may follow the sentinel, an error, or an exhausted source: a
/// closed consumer absorbs every further event unchanged.
pub proof fn lemma_closed_absorbs(m: ConsumerModel, ev: SseEvent)
    requires
        m.is_closed(),
    ensures
        spec_step(m, ev) == m,
{
}

/// A closed consumer absorbs every further event sequence unchanged.
pub proof fn lemma_closed_absorbs_run(m: ConsumerModel, events: Seq<SseEvent>)
    requires
        m.is_closed(),
    ensures
        spec_run(m, events) == m,
    decreases events.len(),
{
    if events.len() > 0 {
        lemma_closed_absorbs(m, events[0]);
        lemma_closed_absorbs_run(m, events.drop_first());
    }
}

/// The chunk list only ever grows at its end: one step appends at most
/// one decoded chunk and never reorders or drops what arrived earlier.
pub proof fn lemma_chunks_append_only(m: ConsumerModel, ev: SseEvent)
    ensures
        spec_step(m, ev).chunks == m.chunks || (ev matches SseEvent::Decoded(c) && spec_step(
            m,
            ev,
        ).chunks == m.chunks.push(c)),
{
}

/// Consumption is strictly sequential: whatever arrives later, the chunks
/// already collected stay a prefix of the final chunk list, in order.
pub proof fn lemma_run_keeps_arrival_order(m: ConsumerModel, events: Seq<SseEvent>)
    ensures
        m.chunks.is_prefix_of(spec_run(m, events).chunks),
    decreases events.len(),
{
    if events.len() == 0 {
        assert(m.chunks.is_prefix_of(m.chunks));
    } else {
        let next = spec_step(m, events[0]);
        lemma_chunks_append_only(m, events[0]);
        lemma_run_keeps_arrival_order(next, events.drop_first());
        assert(m.chunks.is_prefix_of(next.chunks));
        assert(spec_run(m, events) == spec_run(next, events.drop_first()));
        assert(m.chunks =~= spec_run(m, events).chunks.subrange(0, m.chunks.len() as int));
    }
}

/// The consumer of one streamed call.
pub struct StreamConsumer {
    pub phase: StreamPhase,
    pub chunks: Vec<StreamResponse>,
    pub fault: Option<CompletionError>,
}

impl View for StreamConsumer {
    type V = ConsumerModel;

    open spec fn view(&self) -> ConsumerModel {
        ConsumerModel { phase: self.phase, chunks: self.chunks@, fault: self.fault }
    }
}

impl StreamConsumer {
    /// A consumer for a fresh connection.
    pub fn new() -> (c: StreamConsumer)
        ensures
            c@ == spec_init(),
            c@.wf(),
    {
        let c = StreamConsumer { phase: StreamPhase::Connecting, chunks: Vec::new(), fault: None };
        assert(c@ =~= spec_init());
        c
    }

    /// Feeds one event and says what the driver must do next: a
    /// non-sentinel payload goes out for decoding, a closed consumer asks
    /// for the connection to be closed, anything else pulls on.
    pub fn step(&mut self, ev: SseEvent) -> (a: StreamAction)
        ensures
            final(self)@ == spec_step(old(self)@, ev),
            old(self)@.wf() ==> final(self)@.wf(),
            (a is Close) == spec_step(old(self)@, ev).is_closed(),
            (match ev {
                SseEvent::Message(payload) => (!old(self)@.is_closed() && (old(self)@.phase
                    is Connecting || old(self)@.phase is Active) && !is_sentinel(payload@)) ==> a
                    == StreamAction::Decode(payload),
                _ => !(a is Decode),
            }),
    {
        proof {
            if old(self)@.wf() {
                lemma_step_wf(old(self)@, ev);
            }
        }
        if matches!(self.phase, StreamPhase::Done | StreamPhase::Failed) {
            return StreamAction::Close;
        }
        match ev {
            SseEvent::Open => {
                if matches!(self.phase, StreamPhase::Connecting) {
                    self.phase = StreamPhase::Active;
                }
                StreamAction::Pull
            },
            SseEvent::Message(s) => {
                if matches!(self.phase, StreamPhase::Connecting | StreamPhase::Active) {
                    let sentinel: String = "[DONE]".to_owned();
                    if s == sentinel {
                        self.phase = StreamPhase::Done;
                        StreamAction::Close
                    } else {
                        self.phase = StreamPhase::Decoding;
                        StreamAction::Decode(s)
                    }
                } else {
                    StreamAction::Pull
                }
            },
            SseEvent::Decoded(c) => {
                if matches!(self.phase, StreamPhase::Decoding) {
                    self.phase = StreamPhase::Active;
                    self.chunks.push(c);
                }
                StreamAction::Pull
            },
            SseEvent::Malformed(e) => {
                if matches!(self.phase, StreamPhase::Decoding) {
                    self.phase = StreamPhase::Failed;
                    self.fault = Some(CompletionError::Decode(e));
                    StreamAction::Close
                } else {
                    StreamAction::Pull
                }
            },
            SseEvent::TransportFailed(e) => {
                self.phase = StreamPhase::Failed;
                self.fault = Some(CompletionError::Transport(e));
                StreamAction::Close
            },
            SseEvent::Ended => {
                self.phase = StreamPhase::Done;
                StreamAction::Close
            },
        }
    }

    /// The outcome of the call: on failure the recorded error alone —
    /// the collected chunks are discarded — and otherwise the complete
    /// ordered chunk list.
    pub fn finish(self) -> (r: Result<Vec<StreamResponse>, CompletionError>)
        requires
            self@.wf(),
        ensures
            (match r {
                Ok(chunks) => !(self@.phase is Failed) && chunks@ == self@.chunks,
                Err(e) => self@.phase is Failed && Some(e) == self@.fault,
            }),
    {
        if matches!(self.phase, StreamPhase::Failed) {
            Err(self.fault.unwrap())
        } else {
            Ok(self.chunks)
        }
    }
}

/// Consumes a whole event sequence in order: each event is one step of the
/// protocol, and the outcome is the run's outcome. Events after the
/// consumer closes are absorbed without effect.
pub fn consume_events(events: Vec<SseEvent>) -> (r: Result<Vec<StreamResponse>, CompletionError>)
    ensures
        (match r {
            Ok(chunks) => !(spec_run(spec_init(), events@).phase is Failed) && chunks@ == spec_run(
                spec_init(),
                events@,
            ).chunks,
            Err(e) => spec_run(spec_init(), events@).phase is Failed && Some(e) == spec_run(
                spec_init(),
                events@,
            ).fault,
        }),
{
    let mut consumer = StreamConsumer::new();
    let mut pending = events;
    let ghost all = pending@;
    while pending.len() > 0
        invariant
            consumer@.wf(),
            spec_run(consumer@, pending@) == spec_run(spec_init(), all),
        decreases pending@.len(),
    {
        let ghost before_events = pending@;
        let ev = pending.remove(0);
        let _ = consumer.step(ev);
        proof {
            assert(pending@ =~= before_events.drop_first());
        }
    }
    consumer.finish()
}

/// Simulated delivery in order: opening, two decoded chunks and the
/// sentinel yield exactly those two chunks, in arrival order.
pub proof fn lemma_stream_order(
    c1: String,
    d1: StreamResponse,
    c2: String,
    d2: StreamResponse,
    done: String,
)
    requires
        !is_sentinel(c1@),
        !is_sentinel(c2@),
        is_sentinel(done@),
    ensures
        ({
            let fin = spec_run(
                spec_init(),
                seq![
                    SseEvent::Open,
                    SseEvent::Message(c1),
                    SseEvent::Decoded(d1),
                    SseEvent::Message(c2),
                    SseEvent::Decoded(d2),
                    SseEvent::Message(done),
                ],
            );
            fin.phase is Done && fin.chunks == seq![d1, d2]
        }),
{
    let events = seq![
        SseEvent::Open,
        SseEvent::Message(c1),
        SseEvent::Decoded(d1),
        SseEvent::Message(c2),
        SseEvent::Decoded(d2),
        SseEvent::Message(done),
    ];
    reveal_with_fuel(spec_run, 8);
    let m0 = spec_init();
    let m1 = spec_step(m0, events[0]);
    let m2 = spec_step(m1, events[1]);
    let m3 = spec_step(m2, events[2]);
    let m4 = spec_step(m3, events[3]);
    let m5 = spec_step(m4, events[4]);
    let m6 = spec_step(m5, events[5]);
    assert(events.drop_first() =~= seq![
        SseEvent::Message(c1),
        SseEvent::Decoded(d1),
        SseEvent::Message(c2),
        SseEvent::Decoded(d2),
        SseEvent::Message(done),
    ]);
    assert(events.drop_first().drop_first() =~= seq![
        SseEvent::Decoded(d1),
        SseEvent::Message(c2),
        SseEvent::Decoded(d2),
        SseEvent::Message(done),
    ]);
    assert(events.drop_first().drop_first().drop_first() =~= seq![
        SseEvent::Message(c2),
        SseEvent::Decoded(d2),
        SseEvent::Message(done),
    ]);
    assert(events.drop_first().drop_first().drop_first().drop_first() =~= seq![
        SseEvent::Decoded(d2),
        SseEvent::Message(done),
    ]);
    assert(events.drop_first().drop_first().drop_first().drop_first().drop_first() =~= seq![
        SseEvent::Message(done),
    ]);
    assert(spec_run(m0, events) == m6);
    assert(m6.chunks =~= seq![d1, d2]);
}

/// Simulated failure mid-stream: opening, one decoded chunk and a
/// transport error close the consumer with the error as the only outcome;
/// the collected chunk reaches no returned value.
pub proof fn lemma_stream_error_alone(c1: String, d1: StreamResponse, e: String)
    requires
        !is_sentinel(c1@),
    ensures
        ({
            let fin = spec_run(
                spec_init(),
                seq![
                    SseEvent::Open,
                    SseEvent::Message(c1),
                    SseEvent::Decoded(d1),
                    SseEvent::TransportFailed(e),
                ],
            );
            fin.phase is Failed && fin.fault == Some(CompletionError::Transport(e))
        }),
{
    let events = seq![
        SseEvent::Open,
        SseEvent::Message(c1),
        SseEvent::Decoded(d1),
        SseEvent::TransportFailed(e),
    ];
    reveal_with_fuel(spec_run, 6);
    let m0 = spec_init();
    let m1 = spec_step(m0, events[0]);
    let m2 = spec_step(m1, events[1]);
    let m3 = spec_step(m2, events[2]);
    let m4 = spec_step(m3, events[3]);
    assert(events.drop_first() =~= seq![
        SseEvent::Message(c1),
        SseEvent::Decoded(d1),
        SseEvent::TransportFailed(e),
    ]);
    assert(events.drop_first().drop_first() =~= seq![
        SseEvent::Decoded(d1),
        SseEvent::TransportFailed(e),
    ]);
    assert(events.drop_first().drop_first().drop_first() =~= seq![SseEvent::TransportFailed(e)]);
    assert(spec_run(m0, events) == m4);
}

} // verus!
