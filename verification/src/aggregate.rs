//! Stream aggregator: the state machine that checks each event of a message
//! stream against the protocol and assembles the final response from them.
use vstd::prelude::*;
use vstd::string::StringExecFns;
use vstd::pervasive::VecAdditionalExecFns;
use crate::error::{StreamFailure, StreamFailureView};
use crate::types::{
    blocks_view, clone_opt_text, opt_text, ContentBlock, ContentBlockDelta,
    ContentBlockDeltaView, ContentBlockView, EventView, MessagesResponse, MessagesResponseView,
    MessagesStreamEvent, Role, StopReason, StreamError, Usage,
};

verus! {

/// Where a stream stands.
#[derive(Copy, Clone, Debug, PartialEq, Eq, Structural)]
pub enum Phase {
    /// Nothing was received yet.
    AwaitingStart,
    /// The message was opened and not yet stopped.
    Open,
    /// The message was stopped: the response is complete.
    Closed,
    /// The stream failed.
    Errored,
}

/// Mathematical value of an [`Aggregator`]: the phase and the response as far
/// as it is assembled. `sealed[i]` says that block `i` takes no more deltas.
pub struct AggregatorView {
    pub phase: Phase,
    pub role: Role,
    pub content: Seq<ContentBlockView>,
    pub sealed: Seq<bool>,
    pub stop_reason: Option<StopReason>,
    pub stop_sequence: Option<Seq<char>>,
    pub output_tokens: usize,
}

/// The state before anything was received.
pub open spec fn initial() -> AggregatorView {
    AggregatorView {
        phase: Phase::AwaitingStart,
        role: Role::Assistant,
        content: Seq::empty(),
        sealed: Seq::empty(),
        stop_reason: None,
        stop_sequence: None,
        output_tokens: 0,
    }
}

/// Whether a phase is final.
pub open spec fn is_terminal(p: Phase) -> bool {
    p == Phase::Closed || p == Phase::Errored
}

/// The text that a delta carries.
pub open spec fn delta_text(d: ContentBlockDeltaView) -> Seq<char> {
    match d {
        ContentBlockDeltaView::TextDelta { text } => text,
    }
}

/// A block with `more` appended to its text; only a text block has any.
pub open spec fn append_text(b: ContentBlockView, more: Seq<char>) -> ContentBlockView {
    match b {
        ContentBlockView::Text { text } => ContentBlockView::Text { text: text + more },
        _ => b,
    }
}

/// Whether the protocol allows event `ev` in state `s`.
pub open spec fn legal(s: AggregatorView, ev: EventView) -> bool {
    match s.phase {
        Phase::AwaitingStart => ev is MessageStart,
        Phase::Open => match ev {
            EventView::MessageStart { .. } => false,
            EventView::ContentBlockStart { index, .. } => index == s.content.len(),
            EventView::ContentBlockDelta { index, .. } => {
                &&& index < s.content.len()
                &&& !s.sealed[index as int]
                &&& s.content[index as int] is Text
            },
            EventView::ContentBlockStop { index } => {
                &&& index < s.content.len()
                &&& !s.sealed[index as int]
            },
            EventView::MessageDelta { delta, .. } => {
                ||| s.stop_reason is None
                ||| delta.stop_reason is None
                ||| delta.stop_reason == s.stop_reason
            },
            EventView::MessageStop => true,
        },
        _ => false,
    }
}

/// The state after an event that the protocol allows.
pub open spec fn apply(s: AggregatorView, ev: EventView) -> AggregatorView {
    match ev {
        EventView::MessageStart { message } => AggregatorView {
            phase: Phase::Open,
            role: message.role,
            content: message.content,
            sealed: Seq::new(message.content.len(), |i: int| true),
            ..s
        },
        EventView::ContentBlockStart { index, content_block } => AggregatorView {
            content: s.content.push(content_block),
            sealed: s.sealed.push(false),
            ..s
        },
        EventView::ContentBlockDelta { index, delta } => AggregatorView {
            content: s.content.update(
                index as int,
                append_text(s.content[index as int], delta_text(delta)),
            ),
            ..s
        },
        EventView::ContentBlockStop { index } => AggregatorView {
            sealed: s.sealed.update(index as int, true),
            ..s
        },
        EventView::MessageDelta { delta, usage } => AggregatorView {
            stop_reason: if s.stop_reason is Some {
                s.stop_reason
            } else {
                delta.stop_reason
            },
            stop_sequence: if delta.stop_sequence is Some {
                delta.stop_sequence
            } else {
                s.stop_sequence
            },
            output_tokens: usage.output_tokens,
            ..s
        },
        EventView::MessageStop => AggregatorView { phase: Phase::Closed, ..s },
    }
}

/// The state after any event: an event that the protocol does not allow
/// moves a running stream to `Errored` and leaves a finished one as it is.
pub open spec fn step_spec(s: AggregatorView, ev: EventView) -> AggregatorView {
    if legal(s, ev) {
        apply(s, ev)
    } else {
        halted(s)
    }
}

/// The state after a failure: `Errored`, unless the stream had finished.
pub open spec fn halted(s: AggregatorView) -> AggregatorView {
    if is_terminal(s.phase) {
        s
    } else {
        AggregatorView { phase: Phase::Errored, ..s }
    }
}

/// The response that a state holds.
pub open spec fn assembled(s: AggregatorView) -> MessagesResponseView {
    MessagesResponseView {
        id: Seq::empty(),
        kind: "message"@,
        role: s.role,
        content: s.content,
        model: Seq::empty(),
        stop_reason: s.stop_reason,
        stop_sequence: s.stop_sequence,
        usage: Usage { input_tokens: 0, output_tokens: s.output_tokens },
    }
}

/// The view of an optional response.
pub open spec fn opt_response(r: Option<MessagesResponse>) -> Option<MessagesResponseView> {
    match r {
        Some(m) => Some(m@),
        None => None,
    }
}

/// A content block of the response in progress, and whether it was stopped.
struct Slot {
    block: ContentBlock,
    sealed: bool,
}

/// The aggregator of one message stream.
pub struct Aggregator {
    phase: Phase,
    role: Role,
    slots: Vec<Slot>,
    stop_reason: Option<StopReason>,
    stop_sequence: Option<String>,
    output_tokens: usize,
}

impl View for Aggregator {
    type V = AggregatorView;

    closed spec fn view(&self) -> AggregatorView {
        AggregatorView {
            phase: self.phase,
            role: self.role,
            content: Seq::new(self.slots@.len(), |i: int| self.slots@[i].block@),
            sealed: Seq::new(self.slots@.len(), |i: int| self.slots@[i].sealed),
            stop_reason: self.stop_reason,
            stop_sequence: opt_text(self.stop_sequence),
            output_tokens: self.output_tokens,
        }
    }
}

impl Aggregator {
    /// An aggregator that awaits the start of a message.
    pub fn new() -> (r: Aggregator)
        ensures
            r@ == initial(),
    {
        let r = Aggregator {
            phase: Phase::AwaitingStart,
            role: Role::Assistant,
            slots: Vec::new(),
            stop_reason: None,
            stop_sequence: None,
            output_tokens: 0,
        };
        assert(r@.content =~= Seq::empty());
        assert(r@.sealed =~= Seq::empty());
        r
    }

    /// The phase that the stream is in.
    pub fn phase(&self) -> (p: Phase)
        ensures
            p == self@.phase,
    {
        self.phase
    }

    /// The assembled response, once the message was stopped. A stream that
    /// is still running, or that failed, has none.
    pub fn response(&self) -> (r: Option<MessagesResponse>)
        ensures
            opt_response(r) == (if self@.phase == Phase::Closed {
                Some(assembled(self@))
            } else {
                None
            }),
    {
        match self.phase {
            Phase::Closed => Some(self.assemble()),
            _ => None,
        }
    }

    /// Ends the stream with a failure, unless it had finished.
    fn halt(&mut self)
        ensures
            final(self)@ == halted(old(self)@),
    {
        match self.phase {
            Phase::Closed | Phase::Errored => {},
            _ => {
                self.phase = Phase::Errored;
            },
        }
    }

    /// The response as far as it is assembled.
    fn assemble(&self) -> (r: MessagesResponse)
        ensures
            r@ == assembled(self@),
    {
        let mut content: Vec<ContentBlock> = Vec::new();
        let mut i: usize = 0;
        while i < self.slots.len()
            invariant
                i <= self.slots@.len(),
                content@.len() == i,
                forall|k: int| 0 <= k < i ==> content@[k]@ == self.slots@[k].block@,
            decreases self.slots@.len() - i,
        {
            content.push(self.slots[i].block.clone());
            i += 1;
        }
        assert(blocks_view(content@) =~= self@.content);
        MessagesResponse {
            id: String::new(),
            kind: String::from_str("message"),
            role: self.role,
            content,
            model: String::new(),
            stop_reason: self.stop_reason,
            stop_sequence: clone_opt_text(&self.stop_sequence),
            usage: Usage { input_tokens: 0, output_tokens: self.output_tokens },
        }
    }

    /// Whether the protocol allows `event` now.
    pub fn accepts(&self, event: &MessagesStreamEvent) -> (b: bool)
        ensures
            b == legal(self@, event@),
    {
        match self.phase {
            Phase::AwaitingStart => match event {
                MessagesStreamEvent::MessageStart { .. } => true,
                _ => false,
            },
            Phase::Open => match event {
                MessagesStreamEvent::MessageStart { .. } => false,
                MessagesStreamEvent::ContentBlockStart { index, .. } => *index
                    == self.slots.len(),
                MessagesStreamEvent::ContentBlockDelta { index, .. } => {
                    if *index < self.slots.len() {
                        let open = !self.slots[*index].sealed;
                        let textual = match &self.slots[*index].block {
                            ContentBlock::Text { .. } => true,
                            _ => false,
                        };
                        open && textual
                    } else {
                        false
                    }
                },
                MessagesStreamEvent::ContentBlockStop { index } => {
                    *index < self.slots.len() && !self.slots[*index].sealed
                },
                MessagesStreamEvent::MessageDelta { delta, .. } => {
                    match (self.stop_reason, delta.stop_reason) {
                        (Some(a), Some(b)) => a == b,
                        _ => true,
                    }
                },
                MessagesStreamEvent::MessageStop => true,
            },
            _ => false,
        }
    }

    /// Consumes one event. An event that the protocol allows updates the
    /// response, and the one that stops the message hands the response out.
    /// Any other event is a protocol violation: a running stream moves to
    /// `Errored`, and nothing of the response changes.
    pub fn step(&mut self, event: &MessagesStreamEvent) -> (r: Result<
        Option<MessagesResponse>,
        StreamFailure,
    >)
        ensures
            final(self)@ == step_spec(old(self)@, event@),
            legal(old(self)@, event@) <==> r is Ok,
            r is Err ==> r->Err_0@ == StreamFailureView::ProtocolViolation,
            r is Ok ==> opt_response(r->Ok_0) == (if event@ is MessageStop {
                Some(assembled(final(self)@))
            } else {
                None
            }),
            event@ is ContentBlockDelta && event@->ContentBlockDelta_index >= old(self)@.content.len()
                ==> r is Err && final(self)@.content == old(self)@.content,
    {
        if !self.accepts(event) {
            self.halt();
            return Err(StreamFailure::ProtocolViolation);
        }
        match event {
            MessagesStreamEvent::MessageStart { message } => {
                self.phase = Phase::Open;
                self.role = message.role;
                let mut slots: Vec<Slot> = Vec::new();
                let mut i: usize = 0;
                while i < message.content.len()
                    invariant
                        i <= message.content@.len(),
                        slots@.len() == i,
                        forall|k: int|
                            0 <= k < i ==> slots@[k].sealed && slots@[k].block@
                                == message.content@[k]@,
                    decreases message.content@.len() - i,
                {
                    slots.push(Slot { block: message.content[i].clone(), sealed: true });
                    i += 1;
                }
                self.slots = slots;
                assert(self@.content =~= message@.content);
                assert(self@.sealed =~= Seq::new(message@.content.len(), |i: int| true));
                Ok(None)
            },
            MessagesStreamEvent::ContentBlockStart { index, content_block } => {
                self.slots.push(Slot { block: content_block.clone(), sealed: false });
                assert(self@.content =~= old(self)@.content.push(content_block@));
                assert(self@.sealed =~= old(self)@.sealed.push(false));
                Ok(None)
            },
            MessagesStreamEvent::ContentBlockDelta { index, delta } => {
                let mut slot = Slot { block: ContentBlock::Text { text: String::new() }, sealed: false };
                self.slots.set_and_swap(*index, &mut slot);
                let grown = match slot.block {
                    ContentBlock::Text { text } => {
                        let mut t = text;
                        match delta {
                            ContentBlockDelta::TextDelta { text: more } => {
                                t.append(more.as_str());
                            },
                        }
                        ContentBlock::Text { text: t }
                    },
                    other => other,
                };
                self.slots.set(*index, Slot { block: grown, sealed: slot.sealed });
                assert(self@.content =~= old(self)@.content.update(
                    *index as int,
                    append_text(old(self)@.content[*index as int], delta_text(delta@)),
                ));
                assert(self@.sealed =~= old(self)@.sealed);
                Ok(None)
            },
            MessagesStreamEvent::ContentBlockStop { index } => {
                let mut slot = Slot { block: ContentBlock::Text { text: String::new() }, sealed: true };
                self.slots.set_and_swap(*index, &mut slot);
                self.slots.set(*index, Slot { block: slot.block, sealed: true });
                assert(self@.content =~= old(self)@.content);
                assert(self@.sealed =~= old(self)@.sealed.update(*index as int, true));
                Ok(None)
            },
            MessagesStreamEvent::MessageDelta { delta, usage } => {
                if self.stop_reason.is_none() {
                    self.stop_reason = delta.stop_reason;
                }
                if delta.stop_sequence.is_some() {
                    self.stop_sequence = clone_opt_text(&delta.stop_sequence);
                }
                self.output_tokens = usage.output_tokens;
                Ok(None)
            },
            MessagesStreamEvent::MessageStop => {
                self.phase = Phase::Closed;
                Ok(Some(self.assemble()))
            },
        }
    }

    /// Consumes an error frame of the server: the stream ends, and the
    /// failure carries the frame's type and message.
    pub fn remote_error(&mut self, error: StreamError) -> (f: StreamFailure)
        ensures
            final(self)@ == halted(old(self)@),
            f@ == (StreamFailureView::RemoteError { error: error@ }),
    {
        self.halt();
        StreamFailure::RemoteError { error }
    }

    /// Ends the stream on a failure found outside the aggregator (the
    /// transport failed, a frame was malformed), and hands the failure on.
    pub fn abort(&mut self, failure: StreamFailure) -> (f: StreamFailure)
        ensures
            final(self)@ == halted(old(self)@),
            f == failure,
    {
        self.halt();
        failure
    }

    /// Called when the transport signals the end of the stream. Only a
    /// stopped message ends cleanly; a stream that ends earlier is truncated,
    /// and a running one moves to `Errored`.
    pub fn end_of_stream(&mut self) -> (r: Result<(), StreamFailure>)
        ensures
            final(self)@ == halted(old(self)@),
            r is Ok <==> old(self)@.phase == Phase::Closed,
            r is Err ==> r->Err_0@ == StreamFailureView::Truncated,
    {
        match self.phase {
            Phase::Closed => Ok(()),
            _ => {
                self.halt();
                Err(StreamFailure::Truncated)
            },
        }
    }
}

} // verus!
