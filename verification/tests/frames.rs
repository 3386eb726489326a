use anthropic::error::StreamFailure;
use anthropic::frame::{extract_payload, FrameDecoder};

#[test]
fn single_frame_is_decoded() {
    let mut d = FrameDecoder::new();
    d.feed(b"data: {\"type\":\"message_stop\"}\n\n");
    assert_eq!(d.next_frame(), Some(b"{\"type\":\"message_stop\"}".to_vec()));
    assert_eq!(d.next_frame(), None);
    assert_eq!(d.pending(), 0);
    assert_eq!(d.finish(), Ok(()));
}

#[test]
fn frame_split_across_reads_is_reassembled() {
    let mut d = FrameDecoder::new();
    d.feed(b"da");
    assert_eq!(d.next_frame(), None);
    d.feed(b"ta: {\"a\"");
    assert_eq!(d.next_frame(), None);
    d.feed(b":1}\n");
    assert_eq!(d.next_frame(), None);
    d.feed(b"\ndata: x");
    assert_eq!(d.next_frame(), Some(b"{\"a\":1}".to_vec()));
    assert_eq!(d.next_frame(), None);
    assert_eq!(d.pending(), 7);
}

#[test]
fn truncated_stream_is_not_a_clean_end() {
    let mut d = FrameDecoder::new();
    d.feed(b"data: {\"type\":\"message_stop\"}\n\ndata: {\"type\":");
    assert_eq!(d.next_frame(), Some(b"{\"type\":\"message_stop\"}".to_vec()));
    assert_eq!(d.next_frame(), None);
    assert_eq!(d.finish(), Err(StreamFailure::Truncated));
}

#[test]
fn empty_stream_ends_cleanly() {
    let d = FrameDecoder::new();
    assert_eq!(d.finish(), Ok(()));
}

#[test]
fn event_line_is_passed_over() {
    let mut d = FrameDecoder::new();
    d.feed(b"event: message_stop\ndata: {}\n\n");
    assert_eq!(d.next_frame(), Some(b"{}".to_vec()));
    assert_eq!(d.pending(), 0);
}

#[test]
fn record_without_data_yields_no_frame() {
    let mut d = FrameDecoder::new();
    d.feed(b"event: ping\n\n\n: comment\n\ndata:1\n\n");
    assert_eq!(d.next_frame(), Some(b"1".to_vec()));
    assert_eq!(d.next_frame(), None);
    assert_eq!(d.pending(), 0);
}

#[test]
fn carriage_returns_are_stripped() {
    let mut d = FrameDecoder::new();
    d.feed(b"data: hello\r\n\r\ndata: next\r\n\r\n");
    assert_eq!(d.next_frame(), Some(b"hello".to_vec()));
    assert_eq!(d.next_frame(), Some(b"next".to_vec()));
    assert_eq!(d.next_frame(), None);
    assert_eq!(d.finish(), Ok(()));
}

#[test]
fn data_lines_are_joined_by_line_feeds() {
    let mut d = FrameDecoder::new();
    d.feed(b"data: one\ndata:two\ndata:  three\n\n");
    assert_eq!(d.next_frame(), Some(b"one\ntwo\n three".to_vec()));
}

#[test]
fn two_frames_in_one_read_come_out_in_order() {
    let mut d = FrameDecoder::new();
    d.feed(b"data: a\n\ndata: b\n\n");
    assert_eq!(d.next_frame(), Some(b"a".to_vec()));
    assert_eq!(d.pending(), 9);
    assert_eq!(d.next_frame(), Some(b"b".to_vec()));
    assert_eq!(d.next_frame(), None);
}

#[test]
fn payload_of_a_record() {
    assert_eq!(extract_payload(&b"data: x\n\n".to_vec()), Some(b"x".to_vec()));
    assert_eq!(extract_payload(&b"data:\n\n".to_vec()), Some(Vec::new()));
    assert_eq!(extract_payload(&b"dat: x\n\n".to_vec()), None);
    assert_eq!(extract_payload(&b"\n".to_vec()), None);
    assert_eq!(extract_payload(&b"id: 1\ndata: y".to_vec()), Some(b"y".to_vec()));
}
