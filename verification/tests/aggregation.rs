use anthropic::aggregate::{Aggregator, Phase};
use anthropic::error::StreamFailure;
use anthropic::replay::assemble;
use anthropic::types::{
    ContentBlock, ContentBlockDelta, Message, MessageDelta, MessageDeltaUsage, MessagesResponse,
    MessagesStreamEvent, Role, StopReason, StreamError, Usage,
};

fn start() -> MessagesStreamEvent {
    MessagesStreamEvent::MessageStart {
        message: Message { role: Role::Assistant, content: Vec::new() },
    }
}

fn open_text(index: usize) -> MessagesStreamEvent {
    MessagesStreamEvent::ContentBlockStart {
        index,
        content_block: ContentBlock::Text { text: String::new() },
    }
}

fn delta(index: usize, text: &str) -> MessagesStreamEvent {
    MessagesStreamEvent::ContentBlockDelta {
        index,
        delta: ContentBlockDelta::TextDelta { text: text.to_string() },
    }
}

fn stop_block(index: usize) -> MessagesStreamEvent {
    MessagesStreamEvent::ContentBlockStop { index }
}

fn reason(r: Option<StopReason>, seq: Option<&str>, tokens: usize) -> MessagesStreamEvent {
    MessagesStreamEvent::MessageDelta {
        delta: MessageDelta { stop_reason: r, stop_sequence: seq.map(|s| s.to_string()) },
        usage: MessageDeltaUsage { output_tokens: tokens },
    }
}

#[test]
fn content_is_the_concatenation_of_the_deltas() {
    let events = vec![
        start(),
        open_text(0),
        delta(0, "Hel"),
        delta(0, "lo"),
        open_text(1),
        delta(1, "wor"),
        delta(0, "!"),
        stop_block(0),
        delta(1, "ld"),
        stop_block(1),
        reason(Some(StopReason::EndTurn), None, 7),
        MessagesStreamEvent::MessageStop,
    ];
    let expected = MessagesResponse {
        id: String::new(),
        kind: "message".to_string(),
        role: Role::Assistant,
        content: vec![
            ContentBlock::Text { text: "Hello!".to_string() },
            ContentBlock::Text { text: "world".to_string() },
        ],
        model: String::new(),
        stop_reason: Some(StopReason::EndTurn),
        stop_sequence: None,
        usage: Usage { input_tokens: 0, output_tokens: 7 },
    };
    assert_eq!(assemble(&events), Ok(expected.clone()));

    let mut agg = Aggregator::new();
    let last = events.len() - 1;
    for (i, e) in events.iter().enumerate() {
        let out = agg.step(e);
        if i < last {
            assert_eq!(out, Ok(None));
            assert_eq!(agg.phase(), Phase::Open);
            assert_eq!(agg.response(), None);
        } else {
            assert_eq!(out, Ok(Some(expected.clone())));
        }
    }
    assert_eq!(agg.phase(), Phase::Closed);
    assert_eq!(agg.response(), Some(expected));
}

#[test]
fn stop_reason_is_the_one_that_was_set() {
    let events = vec![
        start(),
        reason(None, None, 1),
        reason(Some(StopReason::StopSequence), Some("END"), 2),
        reason(Some(StopReason::StopSequence), None, 3),
        MessagesStreamEvent::MessageStop,
    ];
    let r = assemble(&events).unwrap();
    assert_eq!(r.stop_reason, Some(StopReason::StopSequence));
    assert_eq!(r.stop_sequence, Some("END".to_string()));
    assert_eq!(r.usage, Usage { input_tokens: 0, output_tokens: 3 });
}

#[test]
fn conflicting_stop_reasons_are_a_protocol_violation() {
    let mut agg = Aggregator::new();
    assert_eq!(agg.step(&start()), Ok(None));
    assert_eq!(agg.step(&reason(Some(StopReason::EndTurn), None, 1)), Ok(None));
    let conflicting = reason(Some(StopReason::MaxTokens), None, 2);
    assert!(!agg.accepts(&conflicting));
    assert_eq!(agg.step(&conflicting), Err(StreamFailure::ProtocolViolation));
    assert_eq!(agg.phase(), Phase::Errored);
    assert_eq!(agg.response(), None);
}

#[test]
fn delta_for_an_unopened_index_is_a_protocol_violation() {
    let mut agg = Aggregator::new();
    assert_eq!(agg.step(&start()), Ok(None));
    assert_eq!(agg.step(&delta(0, "x")), Err(StreamFailure::ProtocolViolation));
    assert_eq!(agg.phase(), Phase::Errored);
    assert_eq!(assemble(&vec![start(), delta(0, "x"), MessagesStreamEvent::MessageStop]),
        Err(StreamFailure::ProtocolViolation));
}

#[test]
fn delta_for_a_closed_index_is_a_protocol_violation() {
    let mut agg = Aggregator::new();
    assert_eq!(agg.step(&start()), Ok(None));
    assert_eq!(agg.step(&open_text(0)), Ok(None));
    assert_eq!(agg.step(&stop_block(0)), Ok(None));
    assert_eq!(agg.step(&delta(0, "x")), Err(StreamFailure::ProtocolViolation));
}

#[test]
fn duplicate_and_skipped_indices_are_protocol_violations() {
    let mut a = Aggregator::new();
    assert_eq!(a.step(&start()), Ok(None));
    assert_eq!(a.step(&open_text(0)), Ok(None));
    assert_eq!(a.step(&open_text(0)), Err(StreamFailure::ProtocolViolation));
    let mut b = Aggregator::new();
    assert_eq!(b.step(&start()), Ok(None));
    assert_eq!(b.step(&open_text(1)), Err(StreamFailure::ProtocolViolation));
}

#[test]
fn anything_before_the_start_is_a_protocol_violation() {
    let mut agg = Aggregator::new();
    assert_eq!(agg.phase(), Phase::AwaitingStart);
    assert_eq!(agg.step(&MessagesStreamEvent::MessageStop), Err(StreamFailure::ProtocolViolation));
    assert_eq!(agg.phase(), Phase::Errored);
    assert_eq!(agg.step(&start()), Err(StreamFailure::ProtocolViolation));
}

#[test]
fn second_start_is_a_protocol_violation() {
    let mut agg = Aggregator::new();
    assert_eq!(agg.step(&start()), Ok(None));
    assert_eq!(agg.step(&start()), Err(StreamFailure::ProtocolViolation));
}

#[test]
fn nothing_is_consumed_after_the_stop() {
    let mut agg = Aggregator::new();
    assert_eq!(agg.step(&start()), Ok(None));
    assert!(agg.step(&MessagesStreamEvent::MessageStop).unwrap().is_some());
    assert_eq!(agg.step(&open_text(0)), Err(StreamFailure::ProtocolViolation));
    assert_eq!(agg.phase(), Phase::Closed);
    assert_eq!(agg.end_of_stream(), Ok(()));
}

#[test]
fn delta_for_an_image_block_is_a_protocol_violation() {
    let mut agg = Aggregator::new();
    assert_eq!(agg.step(&start()), Ok(None));
    let image = MessagesStreamEvent::ContentBlockStart {
        index: 0,
        content_block: ContentBlock::Image {
            source: "base64".to_string(),
            media_type: "image/png".to_string(),
            data: "AAAA".to_string(),
        },
    };
    assert_eq!(agg.step(&image), Ok(None));
    assert_eq!(agg.step(&delta(0, "x")), Err(StreamFailure::ProtocolViolation));
}

#[test]
fn seeded_content_is_kept_and_sealed() {
    let seeded = MessagesStreamEvent::MessageStart {
        message: Message {
            role: Role::Assistant,
            content: vec![ContentBlock::Text { text: "B)".to_string() }],
        },
    };
    let events = vec![seeded.clone(), open_text(1), delta(1, "x"), MessagesStreamEvent::MessageStop];
    let r = assemble(&events).unwrap();
    assert_eq!(r.content, vec![
        ContentBlock::Text { text: "B)".to_string() },
        ContentBlock::Text { text: "x".to_string() },
    ]);
    assert_eq!(assemble(&vec![seeded, delta(0, "x")]), Err(StreamFailure::ProtocolViolation));
}

#[test]
fn premature_end_is_truncated() {
    let mut agg = Aggregator::new();
    assert_eq!(agg.step(&start()), Ok(None));
    assert_eq!(agg.end_of_stream(), Err(StreamFailure::Truncated));
    assert_eq!(agg.phase(), Phase::Errored);
    assert_eq!(assemble(&vec![start(), open_text(0)]), Err(StreamFailure::Truncated));
    assert_eq!(assemble(&Vec::new()), Err(StreamFailure::Truncated));
}

#[test]
fn error_frame_ends_the_stream() {
    let mut agg = Aggregator::new();
    assert_eq!(agg.step(&start()), Ok(None));
    let e = StreamError { error_type: "overloaded_error".to_string(), message: "busy".to_string() };
    assert_eq!(agg.remote_error(e.clone()), StreamFailure::RemoteError { error: e });
    assert_eq!(agg.phase(), Phase::Errored);
    assert_eq!(agg.step(&open_text(0)), Err(StreamFailure::ProtocolViolation));
}

#[test]
fn abort_hands_the_failure_on() {
    let mut agg = Aggregator::new();
    let f = StreamFailure::TransportFailure { detail: "reset".to_string() };
    assert_eq!(agg.abort(f), StreamFailure::TransportFailure { detail: "reset".to_string() });
    assert_eq!(agg.phase(), Phase::Errored);
}

#[test]
fn stream_error_is_rendered() {
    let e = StreamError { error_type: "overloaded_error".to_string(), message: "busy".to_string() };
    assert_eq!(e.to_string(), "Error (overloaded_error): busy");
}

#[test]
fn default_role_is_user() {
    assert_eq!(Role::default(), Role::User);
}
