//! Accumulator of the completion endpoint's stream: each fragment extends the
//! text so far, and the fragment that carries a stop reason ends the stream.
use vstd::prelude::*;
use vstd::string::StringExecFns;
use crate::error::{StreamFailure, StreamFailureView};
use crate::types::{CompleteResponse, CompleteResponseView};

verus! {

/// Mathematical value of a [`CompletionStream`]: the text gathered so far,
/// whether a stop reason was seen, and whether the stream failed.
pub struct CompletionView {
    pub text: Seq<char>,
    pub finished: bool,
    pub failed: bool,
}

/// The state before any fragment.
pub open spec fn fresh() -> CompletionView {
    CompletionView { text: Seq::empty(), finished: false, failed: false }
}

/// Whether the stream has ended, with a stop reason or with a failure.
pub open spec fn ended(s: CompletionView) -> bool {
    s.finished || s.failed
}

/// The state after one more fragment: a stream that has ended takes none.
pub open spec fn extend(s: CompletionView, fragment: CompleteResponseView) -> CompletionView {
    if ended(s) {
        s
    } else {
        CompletionView {
            text: s.text + fragment.completion,
            finished: fragment.stop_reason is Some,
            failed: false,
        }
    }
}

/// The state after a failure: a running stream has failed, one that had
/// ended stays as it is.
pub open spec fn broken(s: CompletionView) -> CompletionView {
    if ended(s) {
        s
    } else {
        CompletionView { failed: true, ..s }
    }
}

/// What the caller receives for a fragment: the text so far with the
/// fragment's own stop reason; nothing once the stream has ended.
pub open spec fn yielded(s: CompletionView, fragment: CompleteResponseView) -> Option<
    CompleteResponseView,
> {
    if ended(s) {
        None
    } else {
        Some(
            CompleteResponseView {
                completion: s.text + fragment.completion,
                stop_reason: fragment.stop_reason,
            },
        )
    }
}

/// The state after a sequence of fragments.
pub open spec fn extend_all(s: CompletionView, fragments: Seq<CompleteResponseView>) -> CompletionView
    decreases fragments.len(),
{
    if fragments.len() == 0 {
        s
    } else {
        extend(extend_all(s, fragments.drop_last()), fragments.last())
    }
}

/// The texts of a sequence of fragments, concatenated.
pub open spec fn joined(fragments: Seq<CompleteResponseView>) -> Seq<char>
    decreases fragments.len(),
{
    if fragments.len() == 0 {
        Seq::empty()
    } else {
        joined(fragments.drop_last()) + fragments.last().completion
    }
}

/// The view of an optional response.
pub open spec fn opt_complete(r: Option<CompleteResponse>) -> Option<CompleteResponseView> {
    match r {
        Some(c) => Some(c@),
        None => None,
    }
}

/// The accumulator of one completion stream.
pub struct CompletionStream {
    text: String,
    finished: bool,
    failed: bool,
}

impl View for CompletionStream {
    type V = CompletionView;

    closed spec fn view(&self) -> CompletionView {
        CompletionView { text: self.text@, finished: self.finished, failed: self.failed }
    }
}

impl CompletionStream {
    /// An accumulator that has seen no fragment.
    pub fn new() -> (r: CompletionStream)
        ensures
            r@ == fresh(),
    {
        CompletionStream { text: String::new(), finished: false, failed: false }
    }

    /// Whether a stop reason was seen.
    pub fn is_finished(&self) -> (b: bool)
        ensures
            b == self@.finished,
    {
        self.finished
    }

    /// Whether the stream has ended, with a stop reason or with a failure:
    /// it yields nothing more.
    pub fn has_ended(&self) -> (b: bool)
        ensures
            b == ended(self@),
    {
        self.finished || self.failed
    }

    /// Ends the stream on a failure, unless it had ended, and hands the
    /// failure on.
    pub fn abort(&mut self, failure: StreamFailure) -> (f: StreamFailure)
        ensures
            final(self)@ == broken(old(self)@),
            f == failure,
    {
        if !self.finished {
            self.failed = true;
        }
        failure
    }

    /// Consumes one fragment and hands out the response so far.
    pub fn push(&mut self, fragment: &CompleteResponse) -> (r: Option<CompleteResponse>)
        ensures
            final(self)@ == extend(old(self)@, fragment@),
            opt_complete(r) == yielded(old(self)@, fragment@),
    {
        if self.finished || self.failed {
            return None;
        }
        self.text.append(fragment.completion.as_str());
        self.finished = fragment.stop_reason.is_some();
        Some(CompleteResponse { completion: self.text.clone(), stop_reason: fragment.stop_reason })
    }

    /// Called when the transport signals the end of the stream: a stream
    /// that ends before a stop reason was seen is truncated.
    pub fn end_of_stream(&mut self) -> (r: Result<(), StreamFailure>)
        ensures
            final(self)@ == broken(old(self)@),
            r is Ok <==> old(self)@.finished,
            r is Err ==> r->Err_0@ == StreamFailureView::Truncated,
    {
        if self.finished {
            Ok(())
        } else {
            self.failed = true;
            Err(StreamFailure::Truncated)
        }
    }
}

/// While no fragment but the last carries a stop reason, the text gathered
/// is the concatenation of all fragments, and the stream has finished
/// exactly if the last fragment carries a stop reason.
pub proof fn law_completion_is_concatenation(fragments: Seq<CompleteResponseView>)
    requires
        forall|k: int| 0 <= k < fragments.len() - 1 ==> fragments[k].stop_reason is None,
    ensures
        extend_all(fresh(), fragments).text == joined(fragments),
        extend_all(fresh(), fragments).finished == (fragments.len() > 0
            && fragments.last().stop_reason is Some),
        !extend_all(fresh(), fragments).failed,
    decreases fragments.len(),
{
    if fragments.len() > 0 {
        let prefix = fragments.drop_last();
        law_completion_is_concatenation(prefix);
        if prefix.len() > 0 {
            assert(prefix.last() == fragments[fragments.len() - 2]);
        }
    }
}

/// Once the stream has ended, no fragment changes it or yields anything.
pub proof fn law_nothing_after_stop(s: CompletionView, fragments: Seq<CompleteResponseView>)
    requires
        ended(s),
    ensures
        extend_all(s, fragments) == s,
        forall|k: int|
            0 <= k < fragments.len() ==> yielded(
                extend_all(s, fragments.take(k)),
                #[trigger] fragments[k],
            ) is None,
    decreases fragments.len(),
{
    if fragments.len() > 0 {
        let prefix = fragments.drop_last();
        law_nothing_after_stop(s, prefix);
        assert forall|k: int| 0 <= k < fragments.len() implies yielded(
            extend_all(s, fragments.take(k)),
            #[trigger] fragments[k],
        ) is None by {
            if k < prefix.len() {
                assert(prefix.take(k) =~= fragments.take(k));
                assert(prefix[k] == fragments[k]);
            } else {
                assert(fragments.take(k) =~= prefix);
            }
        }
    }
}

} // verus!
