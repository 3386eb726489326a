use anthropic::aggregate::Phase;
use anthropic::error::StreamFailure;
use anthropic::stream::{MessageStream, Pulled};
use anthropic::types::{
    ContentBlock, ContentBlockDelta, Message, MessageDelta, MessageDeltaUsage,
    MessagesStreamEvent, Role, StopReason, StreamError, Usage,
};

const BODY: &str = "event: message_start\ndata: {\"type\":\"message_start\",\"message\":{\"role\":\"assistant\",\"content\":[]}}\n\nevent: content_block_start\ndata: {\"type\":\"content_block_start\",\"index\":0,\"content_block\":{\"type\":\"text\",\"text\":\"\"}}\n\ndata: {\"type\":\"content_block_delta\",\"index\":0,\"delta\":{\"type\":\"text_delta\",\"text\":\"Hello\"}}\n\ndata: {\"type\":\"content_block_delta\",\"index\":0,\"delta\":{\"type\":\"text_delta\",\"text\":\" world\"}}\n\ndata: {\"type\":\"content_block_stop\",\"index\":0}\n\ndata: {\"type\":\"message_delta\",\"delta\":{\"stop_reason\":\"end_turn\",\"stop_sequence\":null},\"usage\":{\"output_tokens\":2}}\n\ndata: {\"type\":\"message_stop\"}\n\n";

fn expected_events() -> Vec<MessagesStreamEvent> {
    vec![
        MessagesStreamEvent::MessageStart {
            message: Message { role: Role::Assistant, content: Vec::new() },
        },
        MessagesStreamEvent::ContentBlockStart {
            index: 0,
            content_block: ContentBlock::Text { text: String::new() },
        },
        MessagesStreamEvent::ContentBlockDelta {
            index: 0,
            delta: ContentBlockDelta::TextDelta { text: "Hello".to_string() },
        },
        MessagesStreamEvent::ContentBlockDelta {
            index: 0,
            delta: ContentBlockDelta::TextDelta { text: " world".to_string() },
        },
        MessagesStreamEvent::ContentBlockStop { index: 0 },
        MessagesStreamEvent::MessageDelta {
            delta: MessageDelta { stop_reason: Some(StopReason::EndTurn), stop_sequence: None },
            usage: MessageDeltaUsage { output_tokens: 2 },
        },
        MessagesStreamEvent::MessageStop,
    ]
}

#[test]
fn whole_body_yields_events_and_response() {
    let mut s = MessageStream::new();
    s.feed(BODY.as_bytes());
    for e in expected_events() {
        assert_eq!(s.pull(), Pulled::Item(Ok(e)));
    }
    assert_eq!(s.pull(), Pulled::Finished);
    assert_eq!(s.pull(), Pulled::Finished);
    assert_eq!(s.phase(), Phase::Closed);
    let r = s.response().unwrap();
    assert_eq!(r.content, vec![ContentBlock::Text { text: "Hello world".to_string() }]);
    assert_eq!(r.stop_reason, Some(StopReason::EndTurn));
    assert_eq!(r.stop_sequence, None);
    assert_eq!(r.usage, Usage { input_tokens: 0, output_tokens: 2 });
    assert_eq!(r.role, Role::Assistant);
    assert_eq!(r.kind, "message");
    assert_eq!(s.close(), Ok(()));
}

#[test]
fn body_fed_byte_by_byte_yields_the_same_events() {
    let mut s = MessageStream::new();
    let mut seen: Vec<MessagesStreamEvent> = Vec::new();
    for b in BODY.as_bytes() {
        s.feed(&[*b]);
        loop {
            match s.pull() {
                Pulled::Item(Ok(e)) => seen.push(e),
                Pulled::Item(Err(f)) => panic!("{:?}", f),
                Pulled::Pending | Pulled::Finished => break,
            }
        }
    }
    assert_eq!(seen, expected_events());
    assert_eq!(s.phase(), Phase::Closed);
}

#[test]
fn body_cut_in_mid_frame_is_truncated() {
    let mut s = MessageStream::new();
    let cut = &BODY.as_bytes()[..BODY.len() - 10];
    s.feed(cut);
    let mut n = 0;
    while let Pulled::Item(Ok(_)) = s.pull() {
        n += 1;
    }
    assert_eq!(n, 6);
    assert_eq!(s.pull(), Pulled::Pending);
    assert_eq!(s.close(), Err(StreamFailure::Truncated));
    assert_eq!(s.phase(), Phase::Errored);
    assert_eq!(s.response(), None);
    assert_eq!(s.pull(), Pulled::Finished);
}

#[test]
fn malformed_frame_ends_the_stream() {
    let mut s = MessageStream::new();
    s.feed(b"data: {oops}\n\ndata: {\"type\":\"message_stop\"}\n\n");
    assert_eq!(
        s.pull(),
        Pulled::Item(Err(StreamFailure::MalformedEvent { raw: b"{oops}".to_vec() }))
    );
    assert_eq!(s.phase(), Phase::Errored);
    assert_eq!(s.pull(), Pulled::Finished);
}

#[test]
fn error_frame_is_a_remote_error() {
    let mut s = MessageStream::new();
    s.feed(b"data: {\"type\":\"message_start\",\"message\":{\"role\":\"assistant\",\"content\":[]}}\n\n");
    s.feed(b"data: {\"type\":\"overloaded_error\",\"message\":\"Overloaded\"}\n\n");
    assert!(matches!(s.pull(), Pulled::Item(Ok(_))));
    assert_eq!(
        s.pull(),
        Pulled::Item(Err(StreamFailure::RemoteError {
            error: StreamError {
                error_type: "overloaded_error".to_string(),
                message: "Overloaded".to_string(),
            },
        }))
    );
    assert_eq!(s.pull(), Pulled::Finished);
}

#[test]
fn event_out_of_place_is_a_protocol_violation() {
    let mut s = MessageStream::new();
    s.feed(b"data: {\"type\":\"content_block_stop\",\"index\":0}\n\n");
    assert_eq!(s.pull(), Pulled::Item(Err(StreamFailure::ProtocolViolation)));
    assert_eq!(s.phase(), Phase::Errored);
}

#[test]
fn transport_failure_ends_the_stream() {
    let mut s = MessageStream::new();
    assert_eq!(s.pull(), Pulled::Pending);
    assert_eq!(
        s.transport_failed("connection reset".to_string()),
        StreamFailure::TransportFailure { detail: "connection reset".to_string() }
    );
    assert_eq!(s.pull(), Pulled::Finished);
}
