use anthropic::complete::CompletionStream;
use anthropic::decode::decode_fragment;
use anthropic::error::StreamFailure;
use anthropic::stream::{FragmentStream, PulledFragment};
use anthropic::types::{CompleteResponse, StopReason};

#[test]
fn fragments_are_concatenated_until_the_stop_reason() {
    let mut s = CompletionStream::new();
    let first = s.push(&CompleteResponse { completion: "Hello".to_string(), stop_reason: None });
    assert_eq!(first, Some(CompleteResponse { completion: "Hello".to_string(), stop_reason: None }));
    assert!(!s.is_finished());
    let second = s.push(&CompleteResponse {
        completion: " world".to_string(),
        stop_reason: Some(StopReason::EndTurn),
    });
    assert_eq!(second, Some(CompleteResponse {
        completion: "Hello world".to_string(),
        stop_reason: Some(StopReason::EndTurn),
    }));
    assert!(s.is_finished());
    let third = s.push(&CompleteResponse { completion: "!".to_string(), stop_reason: None });
    assert_eq!(third, None);
    assert!(s.is_finished());
    assert_eq!(s.end_of_stream(), Ok(()));
}

#[test]
fn every_stop_reason_ends_the_completion() {
    for r in [StopReason::EndTurn, StopReason::MaxTokens, StopReason::StopSequence] {
        let mut s = CompletionStream::new();
        assert!(s.push(&CompleteResponse { completion: "a".to_string(), stop_reason: Some(r) })
            .is_some());
        assert!(s.is_finished());
        assert_eq!(s.push(&CompleteResponse { completion: "b".to_string(), stop_reason: None }), None);
    }
}

#[test]
fn completion_without_stop_reason_is_truncated() {
    let mut s = CompletionStream::new();
    assert_eq!(s.end_of_stream(), Err(StreamFailure::Truncated));
    assert!(s.has_ended());
    assert!(!s.is_finished());
    let mut t = CompletionStream::new();
    assert!(t.push(&CompleteResponse { completion: "a".to_string(), stop_reason: None }).is_some());
    assert!(!t.has_ended());
    assert_eq!(t.end_of_stream(), Err(StreamFailure::Truncated));
    assert_eq!(t.push(&CompleteResponse { completion: "b".to_string(), stop_reason: None }), None);
}

#[test]
fn aborted_completion_yields_nothing_more() {
    let mut s = CompletionStream::new();
    let f = s.abort(StreamFailure::TransportFailure { detail: "reset".to_string() });
    assert_eq!(f, StreamFailure::TransportFailure { detail: "reset".to_string() });
    assert!(s.has_ended());
    assert_eq!(s.push(&CompleteResponse { completion: "a".to_string(), stop_reason: None }), None);
}

#[test]
fn completion_body_yields_one_item_per_fragment() {
    let mut s = FragmentStream::new();
    assert_eq!(s.pull(), PulledFragment::Pending);
    s.feed(b"data: {\"completion\":\"Hello\",\"stop_reason\":null}\n\ndata: {\"comple");
    assert_eq!(
        s.pull(),
        PulledFragment::Item(Ok(CompleteResponse { completion: "Hello".to_string(), stop_reason: None }))
    );
    assert_eq!(s.pull(), PulledFragment::Pending);
    s.feed(b"tion\":\" world\",\"stop_reason\":\"end_turn\"}\n\ndata: {\"completion\":\"!\"}\n\n");
    assert_eq!(
        s.pull(),
        PulledFragment::Item(Ok(CompleteResponse {
            completion: "Hello world".to_string(),
            stop_reason: Some(StopReason::EndTurn),
        }))
    );
    assert_eq!(s.pull(), PulledFragment::Finished);
    assert_eq!(s.pull(), PulledFragment::Finished);
    assert_eq!(s.close(), Ok(()));
}

#[test]
fn completion_body_cut_short_is_truncated() {
    let mut s = FragmentStream::new();
    s.feed(b"data: {\"completion\":\"Hello\"}\n\ndata: {\"completion\":");
    assert!(matches!(s.pull(), PulledFragment::Item(Ok(_))));
    assert_eq!(s.pull(), PulledFragment::Pending);
    assert_eq!(s.close(), Err(StreamFailure::Truncated));
    assert_eq!(s.pull(), PulledFragment::Finished);
}

#[test]
fn malformed_fragment_ends_the_completion() {
    let mut s = FragmentStream::new();
    s.feed(b"data: {\"completion\":7}\n\ndata: {\"completion\":\"x\"}\n\n");
    assert_eq!(
        s.pull(),
        PulledFragment::Item(Err(StreamFailure::MalformedEvent { raw: b"{\"completion\":7}".to_vec() }))
    );
    assert_eq!(s.pull(), PulledFragment::Finished);
    let mut t = FragmentStream::new();
    assert_eq!(
        t.transport_failed("timeout".to_string()),
        StreamFailure::TransportFailure { detail: "timeout".to_string() }
    );
    assert_eq!(t.pull(), PulledFragment::Finished);
}

#[test]
fn fragment_is_decoded() {
    assert_eq!(
        decode_fragment(b"{\"completion\":\" world\",\"stop_reason\":\"stop_sequence\"}".to_vec()),
        Ok(CompleteResponse {
            completion: " world".to_string(),
            stop_reason: Some(StopReason::StopSequence),
        })
    );
    assert_eq!(
        decode_fragment(b"{\"completion\":\"Hi\",\"stop_reason\":null}".to_vec()),
        Ok(CompleteResponse { completion: "Hi".to_string(), stop_reason: None })
    );
    assert_eq!(
        decode_fragment(b"{\"completion\":\"Hi\"}".to_vec()),
        Ok(CompleteResponse { completion: "Hi".to_string(), stop_reason: None })
    );
    let bad = b"{\"completion\":\"Hi\",\"stop_reason\":\"tired\"}".to_vec();
    assert_eq!(decode_fragment(bad.clone()), Err(StreamFailure::MalformedEvent { raw: bad }));
    let worse = b"{\"completion\":".to_vec();
    assert_eq!(decode_fragment(worse.clone()), Err(StreamFailure::MalformedEvent { raw: worse }));
}
