//! The provider streaming adapter as a state machine. The host drives the
//! provider (stream-open, per-chunk receive, one-shot completion, the
//! toolshim interpreter) and feeds each outcome in as an event; the machine
//! decides what the uniform output sequence yields next. A provider failure
//! — at open or on any chunk receive — is never thrown from the call that
//! requests the sequence: it is delivered as the sequence's terminal item,
//! after which nothing more is yielded.

use vstd::prelude::*;

use crate::toolshim::{convert_tool_messages_to_text, spec_converted_item};
use crate::types::{Message, ModelConfig, ProviderError, ProviderUsage, Tool};

verus! {

/// The conversation as it is dispatched to the provider: converted per the
/// toolshim outbound rewrite when toolshim is on, byte-for-byte the caller's
/// messages when it is off.
pub fn messages_for_provider(config: &ModelConfig, messages: Vec<Message>) -> (r: Vec<Message>)
    ensures
        r@.len() == messages@.len(),
        !config.toolshim ==> r == messages,
        config.toolshim ==> forall|i: int|
            0 <= i < messages@.len() ==> {
                &&& (#[trigger] r@[i]).role == messages@[i].role
                &&& r@[i].created == messages@[i].created
                &&& r@[i].id == messages@[i].id
                &&& r@[i].content@.len() == messages@[i].content@.len()
                &&& forall|j: int|
                    0 <= j < messages@[i].content@.len() ==> spec_converted_item(
                        messages@[i].content@[j],
                        #[trigger] r@[i].content@[j],
                    )
            },
{
    if config.toolshim {
        convert_tool_messages_to_text(&messages)
    } else {
        messages
    }
}

/// Where the adapter stands between events.
pub enum AdapterMode {
    /// Waiting for the outcome of the stream-open or one-shot call.
    Opening,
    /// Waiting for the next provider chunk.
    Streaming,
    /// A completed message is with the toolshim interpreter; the chunk's
    /// usage waits here to be yielded with the interpreted message.
    AwaitingInterpreter { pending_usage: Option<ProviderUsage> },
    /// The sequence has ended; nothing more is yielded.
    Done,
}

/// What the host must do after feeding an event.
pub enum AdapterAction {
    /// Yield this item to the consumer.
    Yield { message: Option<Message>, usage: Option<ProviderUsage> },
    /// Yield this error as the sequence's terminal item.
    YieldError(ProviderError),
    /// Run the completed message through the toolshim interpreter and feed
    /// the outcome back as `Interpreted`.
    Interpret(Message),
    /// Yield nothing; the sequence is over or the event did not apply.
    Stop,
}

/// One outcome of the host's outside work.
pub enum AdapterEvent {
    /// The stream-open call (or the wrap of a successful one-shot
    /// completion) succeeded.
    Opened,
    /// The stream-open or one-shot call failed.
    OpenFailed(ProviderError),
    /// The provider emitted one `(message, usage)` item.
    Chunk { message: Option<Message>, usage: Option<ProviderUsage> },
    /// Receiving the next chunk failed.
    ChunkFailed(ProviderError),
    /// The provider's stream is exhausted.
    StreamEnded,
    /// The toolshim interpreter finished, its outcome already folded into
    /// the provider error channel.
    Interpreted(Result<Message, ProviderError>),
}

/// The adapter state: the toolshim switch and tool snapshot it was started
/// with, its mode, and the last model identifier seen in usage data (the
/// explicit stand-in for the process-wide "last used model" cell, updated
/// last-write-wins and read only observationally).
pub struct StreamAdapter {
    pub toolshim: bool,
    pub toolshim_tools: Vec<Tool>,
    pub mode: AdapterMode,
    pub last_model: Option<String>,
}

/// The transition relation, one event at a time. Events that do not apply
/// in the current mode change nothing and yield nothing; once `Done`, every
/// event yields nothing, so an error is always the terminal item.
pub open spec fn spec_step(s: StreamAdapter, e: AdapterEvent) -> (StreamAdapter, AdapterAction) {
    match s.mode {
        AdapterMode::Opening => match e {
            AdapterEvent::Opened => (
                StreamAdapter { mode: AdapterMode::Streaming, ..s },
                AdapterAction::Stop,
            ),
            AdapterEvent::OpenFailed(err) => (
                StreamAdapter { mode: AdapterMode::Done, ..s },
                AdapterAction::YieldError(err),
            ),
            _ => (s, AdapterAction::Stop),
        },
        AdapterMode::Streaming => match e {
            AdapterEvent::Chunk { message, usage } => {
                let recorded = StreamAdapter {
                    last_model: match usage {
                        Some(u) => Some(u.model),
                        None => s.last_model,
                    },
                    ..s
                };
                match message {
                    Some(m) => if s.toolshim {
                        (
                            StreamAdapter {
                                mode: AdapterMode::AwaitingInterpreter { pending_usage: usage },
                                ..recorded
                            },
                            AdapterAction::Interpret(m),
                        )
                    } else {
                        (recorded, AdapterAction::Yield { message: Some(m), usage })
                    },
                    None => (recorded, AdapterAction::Yield { message: None, usage }),
                }
            },
            AdapterEvent::ChunkFailed(err) => (
                StreamAdapter { mode: AdapterMode::Done, ..s },
                AdapterAction::YieldError(err),
            ),
            AdapterEvent::StreamEnded => (
                StreamAdapter { mode: AdapterMode::Done, ..s },
                AdapterAction::Stop,
            ),
            _ => (s, AdapterAction::Stop),
        },
        AdapterMode::AwaitingInterpreter { pending_usage } => match e {
            AdapterEvent::Interpreted(outcome) => match outcome {
                Ok(m) => (
                    StreamAdapter { mode: AdapterMode::Streaming, ..s },
                    AdapterAction::Yield { message: Some(m), usage: pending_usage },
                ),
                Err(err) => (
                    StreamAdapter { mode: AdapterMode::Done, ..s },
                    AdapterAction::YieldError(err),
                ),
            },
            _ => (s, AdapterAction::Stop),
        },
        AdapterMode::Done => (s, AdapterAction::Stop),
    }
}

impl StreamAdapter {
    /// A fresh adapter for one provider call, before the open outcome is
    /// known.
    pub fn new(config: &ModelConfig, toolshim_tools: Vec<Tool>) -> (s: StreamAdapter)
        ensures
            s.toolshim == config.toolshim,
            s.toolshim_tools == toolshim_tools,
            s.mode is Opening,
            s.last_model is None,
    {
        StreamAdapter {
            toolshim: config.toolshim,
            toolshim_tools,
            mode: AdapterMode::Opening,
            last_model: None,
        }
    }

    /// Feeds one event and returns what the host must do next, exactly as
    /// the transition relation says.
    pub fn step(&mut self, event: AdapterEvent) -> (a: AdapterAction)
        ensures
            (*final(self), a) == spec_step(*old(self), event),
    {
        let mut next: AdapterMode = AdapterMode::Done;
        let action: AdapterAction;
        match (&self.mode, event) {
            (AdapterMode::Opening, AdapterEvent::Opened) => {
                next = AdapterMode::Streaming;
                action = AdapterAction::Stop;
            },
            (AdapterMode::Opening, AdapterEvent::OpenFailed(err)) => {
                next = AdapterMode::Done;
                action = AdapterAction::YieldError(err);
            },
            (AdapterMode::Opening, _) => {
                next = AdapterMode::Opening;
                action = AdapterAction::Stop;
            },
            (AdapterMode::Streaming, AdapterEvent::Chunk { message, usage }) => {
                let pending: Option<ProviderUsage> = match usage {
                    Some(u) => {
                        self.last_model = Some(u.model.clone());
                        Some(u)
                    },
                    None => None,
                };
                match message {
                    Some(m) => {
                        if self.toolshim {
                            next = AdapterMode::AwaitingInterpreter { pending_usage: pending };
                            action = AdapterAction::Interpret(m);
                        } else {
                            next = AdapterMode::Streaming;
                            action = AdapterAction::Yield { message: Some(m), usage: pending };
                        }
                    },
                    None => {
                        next = AdapterMode::Streaming;
                        action = AdapterAction::Yield { message: None, usage: pending };
                    },
                }
            },
            (AdapterMode::Streaming, AdapterEvent::ChunkFailed(err)) => {
                next = AdapterMode::Done;
                action = AdapterAction::YieldError(err);
            },
            (AdapterMode::Streaming, AdapterEvent::StreamEnded) => {
                next = AdapterMode::Done;
                action = AdapterAction::Stop;
            },
            (AdapterMode::Streaming, _) => {
                next = AdapterMode::Streaming;
                action = AdapterAction::Stop;
            },
            (AdapterMode::AwaitingInterpreter { pending_usage }, AdapterEvent::Interpreted(
                outcome,
            )) => {
                match outcome {
                    Ok(m) => {
                        let usage: Option<ProviderUsage> = match pending_usage {
                            Some(u) => Some(u.clone()),
                            None => None,
                        };
                        next = AdapterMode::Streaming;
                        action = AdapterAction::Yield { message: Some(m), usage };
                    },
                    Err(err) => {
                        next = AdapterMode::Done;
                        action = AdapterAction::YieldError(err);
                    },
                }
            },
            (AdapterMode::AwaitingInterpreter { pending_usage }, _) => {
                next = AdapterMode::AwaitingInterpreter { pending_usage: match pending_usage {
                    Some(u) => Some(u.clone()),
                    None => None,
                } };
                action = AdapterAction::Stop;
            },
            (AdapterMode::Done, _) => {
                next = AdapterMode::Done;
                action = AdapterAction::Stop;
            },
        }
        self.mode = next;
        action
    }
}

/// The items a run of the machine yields: every `Yield` and `YieldError`
/// action produced while feeding `events` from state `s`, in order.
pub open spec fn spec_run_yields(s: StreamAdapter, events: Seq<AdapterEvent>) -> Seq<AdapterAction>
    decreases events.len(),
{
    if events.len() == 0 {
        Seq::empty()
    } else {
        let (s2, a) = spec_step(s, events[0]);
        (match a {
            AdapterAction::Yield { .. } => seq![a],
            AdapterAction::YieldError(_) => seq![a],
            _ => Seq::<AdapterAction>::empty(),
        }) + spec_run_yields(s2, events.drop_first())
    }
}

/// A finished adapter yields nothing more, whatever events still arrive.
pub proof fn lemma_done_yields_nothing(s: StreamAdapter, events: Seq<AdapterEvent>)
    requires
        s.mode is Done,
    ensures
        spec_run_yields(s, events) =~= Seq::<AdapterAction>::empty(),
    decreases events.len(),
{
    if events.len() > 0 {
        lemma_done_yields_nothing(s, events.drop_first());
    }
}

/// When the stream-open call fails with error `err`, the output sequence
/// holds exactly one item, and that item is `err` — however many events the
/// host feeds afterwards.
pub proof fn lemma_open_failure_yields_exactly_the_error(
    s: StreamAdapter,
    err: ProviderError,
    rest: Seq<AdapterEvent>,
)
    requires
        s.mode is Opening,
    ensures
        spec_run_yields(s, seq![AdapterEvent::OpenFailed(err)].add(rest)) =~= seq![
            AdapterAction::YieldError(err),
        ],
{
    let events = seq![AdapterEvent::OpenFailed(err)].add(rest);
    assert(events[0] == AdapterEvent::OpenFailed(err));
    assert(events.drop_first() =~= rest);
    let (s2, a) = spec_step(s, events[0]);
    assert(s2.mode is Done);
    lemma_done_yields_nothing(s2, rest);
}

/// When receiving a chunk fails with error `err`, that error is delivered
/// as the sequence's terminal item: it is yielded, and nothing more is
/// yielded afterwards, however many events the host still feeds. Together
/// with `step`'s exactness on every earlier chunk this says that a stream
/// failing on its n-th item yields the n−1 converted items and then the
/// error, terminally.
pub proof fn lemma_chunk_failure_is_terminal(
    s: StreamAdapter,
    err: ProviderError,
    rest: Seq<AdapterEvent>,
)
    requires
        s.mode is Streaming,
    ensures
        spec_run_yields(s, seq![AdapterEvent::ChunkFailed(err)].add(rest)) =~= seq![
            AdapterAction::YieldError(err),
        ],
{
    let events = seq![AdapterEvent::ChunkFailed(err)].add(rest);
    assert(events[0] == AdapterEvent::ChunkFailed(err));
    assert(events.drop_first() =~= rest);
    let (s2, a) = spec_step(s, events[0]);
    assert(s2.mode is Done);
    lemma_done_yields_nothing(s2, rest);
}

} // verus!
