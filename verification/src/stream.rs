//! The message stream as its consumer sees it: bytes go in as the transport
//! delivers them, and typed items come out, one per pull, until the message
//! stops or the stream fails.
use vstd::prelude::*;
use crate::aggregate::{
    assembled, halted, is_terminal, legal, opt_response, step_spec, Aggregator, AggregatorView,
    Phase,
};
use crate::complete::{broken, ended, extend, yielded, CompletionStream, CompletionView};
use crate::decode::{
    decode_fragment, decode_frame, fragment_meaning, frame_meaning, Incoming, IncomingView,
};
use crate::error::{StreamFailure, StreamFailureView};
use crate::frame::{decode, FrameDecoder};
use crate::json::parsed;
use crate::types::{
    CompleteResponse, CompleteResponseView, EventView, MessagesResponse, MessagesStreamEvent,
};

verus! {

/// What one pull gives.
#[derive(Debug, PartialEq, Eq)]
pub enum Pulled {
    /// The next event, or the failure that ends the stream.
    Item(Result<MessagesStreamEvent, StreamFailure>),
    /// No whole frame is there: the stream waits for bytes.
    Pending,
    /// The stream has ended: it yields nothing more.
    Finished,
}

/// Mathematical value of a [`Pulled`].
pub enum PulledView {
    Item(Result<EventView, StreamFailureView>),
    Pending,
    Finished,
}

impl View for Pulled {
    type V = PulledView;

    open spec fn view(&self) -> PulledView {
        match self {
            Pulled::Item(Ok(e)) => PulledView::Item(Ok(e@)),
            Pulled::Item(Err(f)) => PulledView::Item(Err(f@)),
            Pulled::Pending => PulledView::Pending,
            Pulled::Finished => PulledView::Finished,
        }
    }
}

/// Mathematical value of a [`MessageStream`]: the bytes that wait to be
/// decoded, and the state of the aggregator.
pub struct MessageStreamView {
    pub pending: Seq<u8>,
    pub state: AggregatorView,
}

/// What the frame with payload `p` yields in state `s`.
pub open spec fn item_of(s: AggregatorView, p: Seq<u8>) -> Result<EventView, StreamFailureView> {
    match frame_meaning(p, parsed(p)) {
        Ok(IncomingView::Event(e)) => if legal(s, e) {
            Ok(e)
        } else {
            Err(StreamFailureView::ProtocolViolation)
        },
        Ok(IncomingView::Error(error)) => Err(StreamFailureView::RemoteError { error }),
        Err(f) => Err(f),
    }
}

/// The state after the frame with payload `p` in state `s`.
pub open spec fn state_after(s: AggregatorView, p: Seq<u8>) -> AggregatorView {
    match frame_meaning(p, parsed(p)) {
        Ok(IncomingView::Event(e)) => step_spec(s, e),
        _ => halted(s),
    }
}

/// What a pull yields.
pub open spec fn pulled(s: MessageStreamView) -> PulledView {
    if is_terminal(s.state.phase) {
        PulledView::Finished
    } else {
        match decode(s.pending).frame {
            Some(p) => PulledView::Item(item_of(s.state, p)),
            None => PulledView::Pending,
        }
    }
}

/// The stream after a pull.
pub open spec fn after_pull(s: MessageStreamView) -> MessageStreamView {
    if is_terminal(s.state.phase) {
        s
    } else {
        MessageStreamView {
            pending: decode(s.pending).rest,
            state: match decode(s.pending).frame {
                Some(p) => state_after(s.state, p),
                None => s.state,
            },
        }
    }
}

/// A message stream: the frame decoder and the aggregator of one request.
pub struct MessageStream {
    frames: FrameDecoder,
    state: Aggregator,
}

impl View for MessageStream {
    type V = MessageStreamView;

    closed spec fn view(&self) -> MessageStreamView {
        MessageStreamView { pending: self.frames@, state: self.state@ }
    }
}

impl MessageStream {
    /// A stream that has received nothing.
    pub fn new() -> (r: MessageStream)
        ensures
            r@.pending == Seq::<u8>::empty(),
            r@.state == crate::aggregate::initial(),
    {
        MessageStream { frames: FrameDecoder::new(), state: Aggregator::new() }
    }

    /// Takes in the bytes of one read of the transport.
    pub fn feed(&mut self, chunk: &[u8])
        ensures
            final(self)@.pending == old(self)@.pending + chunk@,
            final(self)@.state == old(self)@.state,
    {
        self.frames.feed(chunk);
    }

    /// The phase that the stream is in.
    pub fn phase(&self) -> (p: Phase)
        ensures
            p == self@.state.phase,
    {
        self.state.phase()
    }

    /// Pulls the next item. A stream that has ended yields nothing more.
    /// Otherwise the next whole frame is decoded and consumed: an event that
    /// the protocol allows is handed out as it came; a malformed frame, an
    /// error frame of the server and an event out of place each end the
    /// stream with their failure.
    pub fn pull(&mut self) -> (r: Pulled)
        ensures
            r@ == pulled(old(self)@),
            final(self)@ == after_pull(old(self)@),
    {
        match self.state.phase() {
            Phase::Closed | Phase::Errored => {
                return Pulled::Finished;
            },
            _ => {},
        }
        match self.frames.next_frame() {
            None => Pulled::Pending,
            Some(payload) => match decode_frame(payload) {
                Ok(Incoming::Event(event)) => match self.state.step(&event) {
                    Ok(_) => Pulled::Item(Ok(event)),
                    Err(failure) => Pulled::Item(Err(failure)),
                },
                Ok(Incoming::Error(error)) => Pulled::Item(Err(self.state.remote_error(error))),
                Err(failure) => Pulled::Item(Err(self.state.abort(failure))),
            },
        }
    }

    /// The assembled response, once the message was stopped.
    pub fn response(&self) -> (r: Option<MessagesResponse>)
        ensures
            opt_response(r) == (if self@.state.phase == Phase::Closed {
                Some(assembled(self@.state))
            } else {
                None
            }),
    {
        self.state.response()
    }

    /// Called when the transport fails: the stream ends, and the failure
    /// carries the transport's words.
    pub fn transport_failed(&mut self, detail: String) -> (f: StreamFailure)
        ensures
            final(self)@.pending == old(self)@.pending,
            final(self)@.state == halted(old(self)@.state),
            f@ == (StreamFailureView::TransportFailure { detail: detail@ }),
    {
        self.state.abort(StreamFailure::TransportFailure { detail })
    }

    /// Called when the transport signals the end of the stream, after a
    /// pull has found no whole frame. Only a stopped message ends cleanly: a
    /// stream that ends earlier, in the middle of a frame or between frames,
    /// is truncated.
    pub fn close(&mut self) -> (r: Result<(), StreamFailure>)
        ensures
            final(self)@.pending == old(self)@.pending,
            final(self)@.state == halted(old(self)@.state),
            r is Ok <==> old(self)@.state.phase == Phase::Closed,
            r is Err ==> r->Err_0@ == StreamFailureView::Truncated,
    {
        self.state.end_of_stream()
    }
}

/// What one pull of a completion stream gives.
#[derive(Debug, PartialEq, Eq)]
pub enum PulledFragment {
    /// The completion so far, or the failure that ends the stream.
    Item(Result<CompleteResponse, StreamFailure>),
    /// No whole frame is there: the stream waits for bytes.
    Pending,
    /// The stream has ended: it yields nothing more.
    Finished,
}

/// Mathematical value of a [`PulledFragment`].
pub enum PulledFragmentView {
    Item(Result<CompleteResponseView, StreamFailureView>),
    Pending,
    Finished,
}

impl View for PulledFragment {
    type V = PulledFragmentView;

    open spec fn view(&self) -> PulledFragmentView {
        match self {
            PulledFragment::Item(Ok(c)) => PulledFragmentView::Item(Ok(c@)),
            PulledFragment::Item(Err(f)) => PulledFragmentView::Item(Err(f@)),
            PulledFragment::Pending => PulledFragmentView::Pending,
            PulledFragment::Finished => PulledFragmentView::Finished,
        }
    }
}

/// Mathematical value of a [`FragmentStream`]: the bytes that wait to be
/// decoded, and the state of the accumulator.
pub struct FragmentStreamView {
    pub pending: Seq<u8>,
    pub state: CompletionView,
}

/// What a pull of a completion stream yields.
pub open spec fn pulled_fragment(s: FragmentStreamView) -> PulledFragmentView {
    if ended(s.state) {
        PulledFragmentView::Finished
    } else {
        match decode(s.pending).frame {
            Some(p) => match fragment_meaning(p, parsed(p)) {
                Ok(fragment) => PulledFragmentView::Item(Ok(yielded(s.state, fragment)->0)),
                Err(f) => PulledFragmentView::Item(Err(f)),
            },
            None => PulledFragmentView::Pending,
        }
    }
}

/// The completion stream after a pull.
pub open spec fn after_pull_fragment(s: FragmentStreamView) -> FragmentStreamView {
    if ended(s.state) {
        s
    } else {
        FragmentStreamView {
            pending: decode(s.pending).rest,
            state: match decode(s.pending).frame {
                Some(p) => match fragment_meaning(p, parsed(p)) {
                    Ok(fragment) => extend(s.state, fragment),
                    Err(_) => broken(s.state),
                },
                None => s.state,
            },
        }
    }
}

/// A completion stream: the frame decoder and the accumulator of one
/// request.
pub struct FragmentStream {
    frames: FrameDecoder,
    state: CompletionStream,
}

impl View for FragmentStream {
    type V = FragmentStreamView;

    closed spec fn view(&self) -> FragmentStreamView {
        FragmentStreamView { pending: self.frames@, state: self.state@ }
    }
}

impl FragmentStream {
    /// A stream that has received nothing.
    pub fn new() -> (r: FragmentStream)
        ensures
            r@.pending == Seq::<u8>::empty(),
            r@.state == crate::complete::fresh(),
    {
        FragmentStream { frames: FrameDecoder::new(), state: CompletionStream::new() }
    }

    /// Takes in the bytes of one read of the transport.
    pub fn feed(&mut self, chunk: &[u8])
        ensures
            final(self)@.pending == old(self)@.pending + chunk@,
            final(self)@.state == old(self)@.state,
    {
        self.frames.feed(chunk);
    }

    /// Pulls the next item. A stream that has ended yields nothing more.
    /// Otherwise the next whole frame is decoded: a fragment extends the
    /// completion, which is handed out with the fragment's stop reason; a
    /// malformed frame ends the stream with its failure.
    pub fn pull(&mut self) -> (r: PulledFragment)
        ensures
            r@ == pulled_fragment(old(self)@),
            final(self)@ == after_pull_fragment(old(self)@),
    {
        if self.state.has_ended() {
            return PulledFragment::Finished;
        }
        match self.frames.next_frame() {
            None => PulledFragment::Pending,
            Some(payload) => match decode_fragment(payload) {
                Ok(fragment) => match self.state.push(&fragment) {
                    Some(so_far) => PulledFragment::Item(Ok(so_far)),
                    None => PulledFragment::Finished,
                },
                Err(failure) => PulledFragment::Item(Err(self.state.abort(failure))),
            },
        }
    }

    /// Called when the transport fails: the stream ends, and the failure
    /// carries the transport's words.
    pub fn transport_failed(&mut self, detail: String) -> (f: StreamFailure)
        ensures
            final(self)@.pending == old(self)@.pending,
            final(self)@.state == broken(old(self)@.state),
            f@ == (StreamFailureView::TransportFailure { detail: detail@ }),
    {
        self.state.abort(StreamFailure::TransportFailure { detail })
    }

    /// Called when the transport signals the end of the stream: a stream
    /// that ends before a stop reason was seen is truncated.
    pub fn close(&mut self) -> (r: Result<(), StreamFailure>)
        ensures
            final(self)@.pending == old(self)@.pending,
            final(self)@.state == broken(old(self)@.state),
            r is Ok <==> old(self)@.state.finished,
            r is Err ==> r->Err_0@ == StreamFailureView::Truncated,
    {
        self.state.end_of_stream()
    }
}

/// A stream that has ended yields nothing more, however often it is pulled
/// and whatever bytes wait.
pub proof fn law_nothing_after_the_end(s: MessageStreamView)
    requires
        is_terminal(s.state.phase),
    ensures
        pulled(s) == PulledView::Finished,
        after_pull(s) == s,
{
}

/// A pull that hands out an event or a failure leaves the stream ended
/// exactly if the item was the stop of the message or a failure.
pub proof fn law_failure_ends_the_stream(s: MessageStreamView)
    requires
        !is_terminal(s.state.phase),
        pulled(s) is Item,
    ensures
        pulled(s)->Item_0 is Err ==> after_pull(s).state.phase == Phase::Errored,
        pulled(s)->Item_0 is Ok ==> (after_pull(s).state.phase == Phase::Closed
            <==> pulled(s)->Item_0->Ok_0 is MessageStop),
        pulled(s)->Item_0 is Ok ==> after_pull(s).state.phase != Phase::Errored,
{
}

} // verus!
