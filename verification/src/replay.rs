//! Whole streams: the state that a sequence of events leads to, and what
//! holds of the response that a well-formed stream assembles.
use vstd::prelude::*;
use crate::aggregate::{
    append_text, assembled, delta_text, initial, legal, step_spec, Aggregator, AggregatorView,
    Phase,
};
use crate::error::{StreamFailure, StreamFailureView};
use crate::types::{
    ContentBlockView, EventView, MessagesResponse, MessagesStreamEvent, StopReason,
};

verus! {

/// The state that `events`, consumed in order from state `s`, lead to.
pub open spec fn run(s: AggregatorView, events: Seq<EventView>) -> AggregatorView
    decreases events.len(),
{
    if events.len() == 0 {
        s
    } else {
        step_spec(run(s, events.drop_last()), events.last())
    }
}

/// Whether the protocol allows each of `events` at its place, from state `s`
/// on: the stream is well formed.
pub open spec fn accepted(s: AggregatorView, events: Seq<EventView>) -> bool
    decreases events.len(),
{
    events.len() == 0 || (accepted(s, events.drop_last()) && legal(
        run(s, events.drop_last()),
        events.last(),
    ))
}

/// The views of a list of events, in order.
pub open spec fn events_view(events: Seq<MessagesStreamEvent>) -> Seq<EventView> {
    Seq::new(events.len(), |i: int| events[i]@)
}

/// Every prefix of a well-formed stream is well formed.
pub proof fn law_prefix_is_accepted(s: AggregatorView, events: Seq<EventView>, k: int)
    requires
        accepted(s, events),
        0 <= k <= events.len(),
    ensures
        accepted(s, events.take(k)),
    decreases events.len(),
{
    if k < events.len() {
        law_prefix_is_accepted(s, events.drop_last(), k);
        assert(events.drop_last().take(k) =~= events.take(k));
    } else {
        assert(events.take(k) =~= events);
    }
}

/// Assembles the response of a whole stream of events. The stream must be
/// well formed and end with the stop of the message: an event out of place
/// is a protocol violation, and a well-formed stream that ends earlier is
/// truncated.
pub fn assemble(events: &Vec<MessagesStreamEvent>) -> (r: Result<MessagesResponse, StreamFailure>)
    ensures
        r is Ok <==> accepted(initial(), events_view(events@)) && run(
            initial(),
            events_view(events@),
        ).phase == Phase::Closed,
        r is Ok ==> r->Ok_0@ == assembled(run(initial(), events_view(events@))),
        r is Err ==> r->Err_0@ == (if accepted(initial(), events_view(events@)) {
            StreamFailureView::Truncated
        } else {
            StreamFailureView::ProtocolViolation
        }),
{
    let ghost all = events_view(events@);
    let mut agg = Aggregator::new();
    let mut done: Option<MessagesResponse> = None;
    let mut i: usize = 0;
    assert(all.take(0) =~= Seq::<EventView>::empty());
    while i < events.len()
        invariant
            i <= events@.len(),
            all == events_view(events@),
            accepted(initial(), all.take(i as int)),
            agg@ == run(initial(), all.take(i as int)),
            done is Some <==> agg@.phase == Phase::Closed,
            done is Some ==> done->0@ == assembled(agg@),
        decreases events@.len() - i,
    {
        proof {
            assert(all.take(i + 1).drop_last() =~= all.take(i as int));
            assert(all.take(i + 1).last() == events@[i as int]@);
        }
        match agg.step(&events[i]) {
            Ok(out) => {
                done = out;
            },
            Err(failure) => {
                proof {
                    if accepted(initial(), all) {
                        law_prefix_is_accepted(initial(), all, i + 1);
                    }
                }
                return Err(failure);
            },
        }
        i += 1;
    }
    assert(all.take(i as int) =~= all);
    match done {
        Some(response) => Ok(response),
        None => Err(StreamFailure::Truncated),
    }
}

/// The block that `events` declare for position `i`: by the event that
/// starts block `i`, or by the message that opens the stream.
pub open spec fn opening_block(events: Seq<EventView>, i: int) -> Option<ContentBlockView>
    decreases events.len(),
{
    if events.len() == 0 {
        None
    } else {
        let before = opening_block(events.drop_last(), i);
        match events.last() {
            EventView::MessageStart { message } => if 0 <= i < message.content.len() {
                Some(message.content[i])
            } else {
                before
            },
            EventView::ContentBlockStart { index, content_block } => if index == i {
                Some(content_block)
            } else {
                before
            },
            _ => before,
        }
    }
}

/// The text fragments that `events` deliver for block `i`, concatenated in
/// the order of their arrival.
pub open spec fn fragments_for(events: Seq<EventView>, i: int) -> Seq<char>
    decreases events.len(),
{
    if events.len() == 0 {
        Seq::empty()
    } else {
        let before = fragments_for(events.drop_last(), i);
        match events.last() {
            EventView::ContentBlockDelta { index, delta } => if index == i {
                before + delta_text(delta)
            } else {
                before
            },
            _ => before,
        }
    }
}

/// The stop reason that an event announces, if it announces one.
pub open spec fn announced(ev: EventView) -> Option<StopReason> {
    match ev {
        EventView::MessageDelta { delta, .. } => delta.stop_reason,
        _ => None,
    }
}

proof fn lemma_append_nothing(b: ContentBlockView)
    ensures
        append_text(b, Seq::empty()) == b,
{
    match b {
        ContentBlockView::Text { text } => {
            assert(text + Seq::<char>::empty() =~= text);
        },
        _ => {},
    }
}

proof fn lemma_append_twice(b: ContentBlockView, x: Seq<char>, y: Seq<char>)
    ensures
        append_text(append_text(b, x), y) == append_text(b, x + y),
{
    match b {
        ContentBlockView::Text { text } => {
            assert((text + x) + y =~= text + (x + y));
        },
        _ => {},
    }
}

/// What holds of the content after every well-formed prefix of a stream.
pub open spec fn content_tracks(s: AggregatorView, events: Seq<EventView>) -> bool {
    &&& s.phase != Phase::Errored
    &&& (s.phase == Phase::AwaitingStart ==> events.len() == 0)
    &&& s.sealed.len() == s.content.len()
    &&& forall|i: int|
        0 <= i < s.content.len() ==> (#[trigger] opening_block(events, i)) is Some
            && s.content[i] == append_text(
            opening_block(events, i)->0,
            fragments_for(events, i),
        )
    &&& forall|i: int|
        i >= s.content.len() ==> (#[trigger] opening_block(events, i)) is None
            && fragments_for(events, i) == Seq::<char>::empty()
}

proof fn lemma_content_tracks(events: Seq<EventView>)
    requires
        accepted(initial(), events),
    ensures
        content_tracks(run(initial(), events), events),
    decreases events.len(),
{
    if events.len() > 0 {
        let prefix = events.drop_last();
        let p = run(initial(), prefix);
        let s = run(initial(), events);
        lemma_content_tracks(prefix);
        match events.last() {
            EventView::MessageStart { message } => {
                assert forall|i: int| 0 <= i < s.content.len() implies (#[trigger] opening_block(
                    events,
                    i,
                )) is Some && s.content[i] == append_text(
                    opening_block(events, i)->0,
                    fragments_for(events, i),
                ) by {
                    assert(opening_block(prefix, i) is None);
                    lemma_append_nothing(message.content[i]);
                }
                assert forall|i: int| i >= s.content.len() implies (#[trigger] opening_block(
                    events,
                    i,
                )) is None && fragments_for(events, i) == Seq::<char>::empty() by {
                    assert(opening_block(prefix, i) is None);
                }
            },
            EventView::ContentBlockStart { index, content_block } => {
                assert forall|i: int| 0 <= i < s.content.len() implies (#[trigger] opening_block(
                    events,
                    i,
                )) is Some && s.content[i] == append_text(
                    opening_block(events, i)->0,
                    fragments_for(events, i),
                ) by {
                    if i == index {
                        assert(opening_block(prefix, i) is None);
                        lemma_append_nothing(content_block);
                    } else {
                        assert(opening_block(prefix, i) is Some);
                    }
                }
                assert forall|i: int| i >= s.content.len() implies (#[trigger] opening_block(
                    events,
                    i,
                )) is None && fragments_for(events, i) == Seq::<char>::empty() by {
                    assert(opening_block(prefix, i) is None);
                }
            },
            EventView::ContentBlockDelta { index, delta } => {
                assert forall|i: int| 0 <= i < s.content.len() implies (#[trigger] opening_block(
                    events,
                    i,
                )) is Some && s.content[i] == append_text(
                    opening_block(events, i)->0,
                    fragments_for(events, i),
                ) by {
                    assert(opening_block(prefix, i) is Some);
                    if i == index {
                        lemma_append_twice(
                            opening_block(prefix, i)->0,
                            fragments_for(prefix, i),
                            delta_text(delta),
                        );
                    }
                }
                assert forall|i: int| i >= s.content.len() implies (#[trigger] opening_block(
                    events,
                    i,
                )) is None && fragments_for(events, i) == Seq::<char>::empty() by {
                    assert(opening_block(prefix, i) is None);
                }
            },
            _ => {
                assert forall|i: int| 0 <= i < s.content.len() implies (#[trigger] opening_block(
                    events,
                    i,
                )) is Some && s.content[i] == append_text(
                    opening_block(events, i)->0,
                    fragments_for(events, i),
                ) by {
                    assert(opening_block(prefix, i) is Some);
                }
                assert forall|i: int| i >= s.content.len() implies (#[trigger] opening_block(
                    events,
                    i,
                )) is None && fragments_for(events, i) == Seq::<char>::empty() by {
                    assert(opening_block(prefix, i) is None);
                }
            },
        }
    }
}

/// The content that a well-formed stream assembles is, block by block, the
/// block that the stream declared for that position with the text fragments
/// delivered for it appended in the order of their arrival.
pub proof fn law_content_is_concatenation(events: Seq<EventView>, i: int)
    requires
        accepted(initial(), events),
        0 <= i < run(initial(), events).content.len(),
    ensures
        opening_block(events, i) is Some,
        run(initial(), events).content[i] == append_text(
            opening_block(events, i)->0,
            fragments_for(events, i),
        ),
{
    lemma_content_tracks(events);
}

/// A block that a well-formed stream starts with empty text ends as the
/// concatenation of the fragments delivered for it, and nothing else.
pub proof fn law_text_is_the_fragments(events: Seq<EventView>, i: int)
    requires
        accepted(initial(), events),
        0 <= i < run(initial(), events).content.len(),
        opening_block(events, i) == Some(ContentBlockView::Text { text: Seq::empty() }),
    ensures
        run(initial(), events).content[i] == (ContentBlockView::Text {
            text: fragments_for(events, i),
        }),
{
    lemma_content_tracks(events);
    assert(Seq::<char>::empty() + fragments_for(events, i) =~= fragments_for(events, i));
}

/// No position beyond the assembled content was ever declared or written to.
pub proof fn law_no_block_is_made_by_a_delta(events: Seq<EventView>, i: int)
    requires
        accepted(initial(), events),
        i >= run(initial(), events).content.len(),
    ensures
        opening_block(events, i) is None,
        fragments_for(events, i) == Seq::<char>::empty(),
{
    lemma_content_tracks(events);
}

/// The position that an event addresses, where it is a delta or the stop of
/// a block.
pub open spec fn addressed(ev: EventView) -> Option<int> {
    match ev {
        EventView::ContentBlockDelta { index, .. } => Some(index as int),
        EventView::ContentBlockStop { index } => Some(index as int),
        _ => None,
    }
}

/// In a well-formed stream a delta, and the stop of a block, come after the
/// declaration of the block that they address: a stream with a delta for a
/// position that nothing before it declared is not well formed.
pub proof fn law_delta_follows_its_start(events: Seq<EventView>, k: int)
    requires
        accepted(initial(), events),
        0 <= k < events.len(),
        addressed(events[k]) is Some,
    ensures
        opening_block(events.take(k), addressed(events[k])->0) is Some,
{
    let upto = events.take(k + 1);
    law_prefix_is_accepted(initial(), events, k + 1);
    assert(upto.drop_last() =~= events.take(k));
    assert(upto.last() == events[k]);
    law_prefix_is_accepted(initial(), events, k);
    lemma_content_tracks(events.take(k));
}

/// Once a stop reason is set, an event that the protocol allows keeps it.
proof fn lemma_reason_kept(s: AggregatorView, ev: EventView)
    requires
        legal(s, ev),
        s.stop_reason is Some,
    ensures
        step_spec(s, ev).stop_reason == s.stop_reason,
{
}

/// In a well-formed stream every event that announces a stop reason
/// announces the one that the response ends with.
pub proof fn law_stop_reason_is_the_announced_one(events: Seq<EventView>, k: int)
    requires
        accepted(initial(), events),
        0 <= k < events.len(),
        announced(events[k]) is Some,
    ensures
        run(initial(), events).stop_reason == announced(events[k]),
    decreases events.len(),
{
    let prefix = events.drop_last();
    if k < events.len() - 1 {
        law_stop_reason_is_the_announced_one(prefix, k);
        lemma_reason_kept(run(initial(), prefix), events.last());
    }
}

/// The stop reason of the response of a well-formed stream was announced by
/// one of its events.
pub proof fn law_stop_reason_was_announced(events: Seq<EventView>) -> (k: int)
    requires
        accepted(initial(), events),
        run(initial(), events).stop_reason is Some,
    ensures
        0 <= k < events.len(),
        announced(events[k]) == run(initial(), events).stop_reason,
    decreases events.len(),
{
    let prefix = events.drop_last();
    if events.len() == 0 {
        0
    } else if run(initial(), prefix).stop_reason is Some {
        let k = law_stop_reason_was_announced(prefix);
        lemma_reason_kept(run(initial(), prefix), events.last());
        k
    } else {
        events.len() - 1
    }
}

/// An event that announces another stop reason than the one that is set is a
/// protocol violation, and the stream fails.
pub proof fn law_conflicting_stop_reason_is_rejected(s: AggregatorView, ev: EventView)
    requires
        s.phase == Phase::Open,
        s.stop_reason is Some,
        announced(ev) is Some,
        announced(ev) != s.stop_reason,
    ensures
        !legal(s, ev),
        step_spec(s, ev).phase == Phase::Errored,
        step_spec(s, ev).stop_reason == s.stop_reason,
{
}

/// A well-formed stream begins with the start of the message and has no
/// second one, and nothing follows the stop of the message.
pub proof fn law_stream_shape(events: Seq<EventView>, k: int)
    requires
        accepted(initial(), events),
        0 <= k < events.len(),
    ensures
        events[k] is MessageStart <==> k == 0,
        events[k] is MessageStop <==> k == events.len() - 1 && run(initial(), events).phase
            == Phase::Closed,
    decreases events.len(),
{
    let prefix = events.drop_last();
    lemma_content_tracks(prefix);
    lemma_content_tracks(events);
    if k < events.len() - 1 {
        law_stream_shape(prefix, k);
        lemma_phase(prefix);
    } else {
        lemma_phase(prefix);
    }
}

/// The phase after a well-formed prefix: awaiting before the first event,
/// closed after a stop, open otherwise.
proof fn lemma_phase(events: Seq<EventView>)
    requires
        accepted(initial(), events),
    ensures
        events.len() == 0 ==> run(initial(), events).phase == Phase::AwaitingStart,
        events.len() > 0 && events.last() is MessageStop ==> run(initial(), events).phase
            == Phase::Closed,
        events.len() > 0 && !(events.last() is MessageStop) ==> run(initial(), events).phase
            == Phase::Open,
    decreases events.len(),
{
    if events.len() > 0 {
        lemma_phase(events.drop_last());
    }
}

} // verus!
