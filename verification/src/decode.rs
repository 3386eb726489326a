//! Event taxonomy on the wire: which JSON value is which event, error frame
//! or response, and which is malformed.
use vstd::prelude::*;
use crate::error::{StreamFailure, StreamFailureView};
use crate::json::{
    count_field, field, is_text, optional_text_field, parsed, text_field, Json,
};
use crate::types::{
    blocks_view, opt_text, opt_view, CompleteResponse, CompleteResponseView, ContentBlock,
    ContentBlockDelta, ContentBlockDeltaView, ContentBlockView, EventView, Message, MessageDelta,
    MessageDeltaUsage, MessageDeltaView, MessageView, MessagesStreamEvent, Role, StopReason,
    StreamError, StreamErrorView,
};

verus! {

/// What a frame of a message stream holds: an event, or the server's error.
#[derive(Debug, PartialEq, Eq)]
pub enum Incoming {
    Event(MessagesStreamEvent),
    Error(StreamError),
}

/// Mathematical value of an [`Incoming`].
pub enum IncomingView {
    Event(EventView),
    Error(StreamErrorView),
}

impl View for Incoming {
    type V = IncomingView;

    open spec fn view(&self) -> IncomingView {
        match self {
            Incoming::Event(e) => IncomingView::Event(e@),
            Incoming::Error(e) => IncomingView::Error(e@),
        }
    }
}

/// The role that a tag names.
pub open spec fn role_named(tag: Seq<char>) -> Option<Role> {
    if tag == "user"@ {
        Some(Role::User)
    } else if tag == "assistant"@ {
        Some(Role::Assistant)
    } else {
        None
    }
}

/// The stop reason that a tag names.
pub open spec fn reason_named(tag: Seq<char>) -> Option<StopReason> {
    if tag == "end_turn"@ {
        Some(StopReason::EndTurn)
    } else if tag == "max_tokens"@ {
        Some(StopReason::MaxTokens)
    } else if tag == "stop_sequence"@ {
        Some(StopReason::StopSequence)
    } else {
        None
    }
}

/// An optional stop reason: absent or `null` is `Some(None)`; a string must
/// name a stop reason.
pub open spec fn optional_reason(j: Json, key: Seq<char>) -> Option<Option<StopReason>> {
    match optional_text_field(j, key) {
        None => None,
        Some(None) => Some(None),
        Some(Some(tag)) => match reason_named(tag) {
            Some(r) => Some(Some(r)),
            None => None,
        },
    }
}

/// The content block that a value stands for.
pub open spec fn block_of(j: Json) -> Option<ContentBlockView> {
    match text_field(j, "type"@) {
        Some(tag) => if tag == "text"@ {
            match text_field(j, "text"@) {
                Some(text) => Some(ContentBlockView::Text { text }),
                None => None,
            }
        } else if tag == "image"@ {
            match (text_field(j, "source"@), text_field(j, "media_type"@), text_field(j, "data"@)) {
                (Some(source), Some(media_type), Some(data)) => Some(
                    ContentBlockView::Image { source, media_type, data },
                ),
                _ => None,
            }
        } else {
            None
        },
        None => None,
    }
}

/// The content blocks that an array stands for: each of its items must be
/// one.
pub open spec fn blocks_of(j: Json) -> Option<Seq<ContentBlockView>> {
    match j {
        Json::Array(items) => if forall|i: int|
            0 <= i < items@.len() ==> (#[trigger] block_of(items@[i])) is Some {
            Some(Seq::new(items@.len(), |i: int| block_of(items@[i])->0))
        } else {
            None
        },
        _ => None,
    }
}

/// The message that a value stands for.
pub open spec fn message_of(j: Json) -> Option<MessageView> {
    match (text_field(j, "role"@), field(j, "content"@)) {
        (Some(tag), Some(items)) => match (role_named(tag), blocks_of(items)) {
            (Some(role), Some(content)) => Some(MessageView { role, content }),
            _ => None,
        },
        _ => None,
    }
}

/// The content delta that a value stands for.
pub open spec fn delta_of(j: Json) -> Option<ContentBlockDeltaView> {
    match (text_field(j, "type"@), text_field(j, "text"@)) {
        (Some(tag), Some(text)) => if tag == "text_delta"@ {
            Some(ContentBlockDeltaView::TextDelta { text })
        } else {
            None
        },
        _ => None,
    }
}

/// The message delta that a value stands for.
pub open spec fn message_delta_of(j: Json) -> Option<MessageDeltaView> {
    match (j, optional_reason(j, "stop_reason"@), optional_text_field(j, "stop_sequence"@)) {
        (Json::Object(_), Some(stop_reason), Some(stop_sequence)) => Some(
            MessageDeltaView { stop_reason, stop_sequence },
        ),
        _ => None,
    }
}

/// The running usage that a value stands for.
pub open spec fn delta_usage_of(j: Json) -> Option<MessageDeltaUsage> {
    match count_field(j, "output_tokens"@) {
        Some(n) => Some(MessageDeltaUsage { output_tokens: n }),
        None => None,
    }
}

/// Whether a discriminator names an event of a message stream.
pub open spec fn is_event_tag(tag: Seq<char>) -> bool {
    ||| tag == "message_start"@
    ||| tag == "content_block_start"@
    ||| tag == "content_block_delta"@
    ||| tag == "content_block_stop"@
    ||| tag == "message_delta"@
    ||| tag == "message_stop"@
}

/// The event with discriminator `tag` that a value stands for; `None` where
/// a field that the event requires is missing or of another shape.
pub open spec fn event_of(j: Json, tag: Seq<char>) -> Option<EventView> {
    if tag == "message_start"@ {
        match field(j, "message"@) {
            Some(m) => match message_of(m) {
                Some(message) => Some(EventView::MessageStart { message }),
                None => None,
            },
            None => None,
        }
    } else if tag == "content_block_start"@ {
        match (count_field(j, "index"@), field(j, "content_block"@)) {
            (Some(index), Some(b)) => match block_of(b) {
                Some(content_block) => Some(EventView::ContentBlockStart { index, content_block }),
                None => None,
            },
            _ => None,
        }
    } else if tag == "content_block_delta"@ {
        match (count_field(j, "index"@), field(j, "delta"@)) {
            (Some(index), Some(d)) => match delta_of(d) {
                Some(delta) => Some(EventView::ContentBlockDelta { index, delta }),
                None => None,
            },
            _ => None,
        }
    } else if tag == "content_block_stop"@ {
        match count_field(j, "index"@) {
            Some(index) => Some(EventView::ContentBlockStop { index }),
            None => None,
        }
    } else if tag == "message_delta"@ {
        match (field(j, "delta"@), field(j, "usage"@)) {
            (Some(d), Some(u)) => match (message_delta_of(d), delta_usage_of(u)) {
                (Some(delta), Some(usage)) => Some(EventView::MessageDelta { delta, usage }),
                _ => None,
            },
            _ => None,
        }
    } else if tag == "message_stop"@ {
        Some(EventView::MessageStop)
    } else {
        None
    }
}

/// What a value of a message stream stands for. A value whose discriminator
/// names an event is that event; one with any other discriminator and a
/// message is an error frame; everything else is malformed, `None`.
pub open spec fn incoming_of(j: Json) -> Option<IncomingView> {
    match text_field(j, "type"@) {
        Some(tag) => if is_event_tag(tag) {
            match event_of(j, tag) {
                Some(e) => Some(IncomingView::Event(e)),
                None => None,
            }
        } else {
            match text_field(j, "message"@) {
                Some(message) => Some(
                    IncomingView::Error(StreamErrorView { error_type: tag, message }),
                ),
                None => None,
            }
        },
        None => None,
    }
}

/// The completion fragment that a value stands for.
pub open spec fn completion_of(j: Json) -> Option<CompleteResponseView> {
    match (text_field(j, "completion"@), optional_reason(j, "stop_reason"@)) {
        (Some(completion), Some(stop_reason)) => Some(
            CompleteResponseView { completion, stop_reason },
        ),
        _ => None,
    }
}

/// What the frame with the given payload stands for, given the value that
/// the payload parses to.
pub open spec fn frame_meaning(payload: Seq<u8>, value: Option<Json>) -> Result<
    IncomingView,
    StreamFailureView,
> {
    match value {
        Some(j) => match incoming_of(j) {
            Some(incoming) => Ok(incoming),
            None => Err(StreamFailureView::MalformedEvent { raw: payload }),
        },
        None => Err(StreamFailureView::MalformedEvent { raw: payload }),
    }
}

/// What the frame of a completion stream with the given payload stands for.
pub open spec fn fragment_meaning(payload: Seq<u8>, value: Option<Json>) -> Result<
    CompleteResponseView,
    StreamFailureView,
> {
    match value {
        Some(j) => match completion_of(j) {
            Some(fragment) => Ok(fragment),
            None => Err(StreamFailureView::MalformedEvent { raw: payload }),
        },
        None => Err(StreamFailureView::MalformedEvent { raw: payload }),
    }
}

/// The view of the outcome of decoding.
pub open spec fn outcome_view<T: View>(r: Result<T, StreamFailure>) -> Result<
    T::V,
    StreamFailureView,
> {
    match r {
        Ok(t) => Ok(t@),
        Err(e) => Err(e@),
    }
}

/// Decodes an optional stop reason.
fn decode_reason(j: &Json, key: &str) -> (r: Option<Option<StopReason>>)
    ensures
        r == optional_reason(*j, key@),
{
    match j.optional_text_at(key) {
        None => None,
        Some(None) => Some(None),
        Some(Some(tag)) => {
            if is_text(&tag, "end_turn") {
                Some(Some(StopReason::EndTurn))
            } else if is_text(&tag, "max_tokens") {
                Some(Some(StopReason::MaxTokens))
            } else if is_text(&tag, "stop_sequence") {
                Some(Some(StopReason::StopSequence))
            } else {
                None
            }
        },
    }
}

/// Decodes a role's tag.
fn decode_role(tag: &String) -> (r: Option<Role>)
    ensures
        r == role_named(tag@),
{
    if is_text(tag, "user") {
        Some(Role::User)
    } else if is_text(tag, "assistant") {
        Some(Role::Assistant)
    } else {
        None
    }
}

/// Decodes a content block.
pub fn decode_block(j: &Json) -> (r: Option<ContentBlock>)
    ensures
        opt_view(r) == block_of(*j),
{
    match j.text_at("type") {
        Some(tag) => {
            if is_text(&tag, "text") {
                match j.text_at("text") {
                    Some(text) => Some(ContentBlock::Text { text }),
                    None => None,
                }
            } else if is_text(&tag, "image") {
                match (j.text_at("source"), j.text_at("media_type"), j.text_at("data")) {
                    (Some(source), Some(media_type), Some(data)) => Some(
                        ContentBlock::Image { source, media_type, data },
                    ),
                    _ => None,
                }
            } else {
                None
            }
        },
        None => None,
    }
}

/// The views of an optional list of content blocks.
pub open spec fn opt_blocks(r: Option<Vec<ContentBlock>>) -> Option<Seq<ContentBlockView>> {
    match r {
        Some(v) => Some(blocks_view(v@)),
        None => None,
    }
}

/// Decodes an array of content blocks.
pub fn decode_blocks(j: &Json) -> (r: Option<Vec<ContentBlock>>)
    ensures
        opt_blocks(r) == blocks_of(*j),
{
    match j {
        Json::Array(items) => {
            let mut out: Vec<ContentBlock> = Vec::new();
            let mut i: usize = 0;
            while i < items.len()
                invariant
                    i <= items@.len(),
                    out@.len() == i,
                    *j == Json::Array(*items),
                    forall|k: int|
                        0 <= k < i ==> (#[trigger] block_of(items@[k])) is Some && out@[k]@
                            == block_of(items@[k])->0,
                decreases items@.len() - i,
            {
                match decode_block(&items[i]) {
                    Some(block) => {
                        out.push(block);
                    },
                    None => {
                        assert(block_of(items@[i as int]) is None);
                        return None;
                    },
                }
                i += 1;
            }
            assert(blocks_view(out@) =~= Seq::new(items@.len(), |i: int| block_of(items@[i])->0));
            Some(out)
        },
        _ => None,
    }
}

/// Decodes a message.
pub fn decode_message(j: &Json) -> (r: Option<Message>)
    ensures
        opt_view(r) == message_of(*j),
{
    match (j.text_at("role"), j.get("content")) {
        (Some(tag), Some(items)) => match (decode_role(&tag), decode_blocks(items)) {
            (Some(role), Some(content)) => Some(Message { role, content }),
            _ => None,
        },
        _ => None,
    }
}

/// Decodes a content delta.
pub fn decode_delta(j: &Json) -> (r: Option<ContentBlockDelta>)
    ensures
        opt_view(r) == delta_of(*j),
{
    match (j.text_at("type"), j.text_at("text")) {
        (Some(tag), Some(text)) => {
            if is_text(&tag, "text_delta") {
                Some(ContentBlockDelta::TextDelta { text })
            } else {
                None
            }
        },
        _ => None,
    }
}

/// Decodes a message delta.
pub fn decode_message_delta(j: &Json) -> (r: Option<MessageDelta>)
    ensures
        opt_view(r) == message_delta_of(*j),
{
    match j {
        Json::Object(_) => match (
            decode_reason(j, "stop_reason"),
            j.optional_text_at("stop_sequence"),
        ) {
            (Some(stop_reason), Some(stop_sequence)) => Some(
                MessageDelta { stop_reason, stop_sequence },
            ),
            _ => None,
        },
        _ => None,
    }
}

/// Decodes the event with discriminator `tag`.
fn decode_event(j: &Json, tag: &String) -> (r: Option<MessagesStreamEvent>)
    ensures
        opt_view(r) == event_of(*j, tag@),
{
    if is_text(tag, "message_start") {
        match j.get("message") {
            Some(m) => match decode_message(m) {
                Some(message) => Some(MessagesStreamEvent::MessageStart { message }),
                None => None,
            },
            None => None,
        }
    } else if is_text(tag, "content_block_start") {
        match (j.count_at("index"), j.get("content_block")) {
            (Some(index), Some(b)) => match decode_block(b) {
                Some(content_block) => Some(
                    MessagesStreamEvent::ContentBlockStart { index, content_block },
                ),
                None => None,
            },
            _ => None,
        }
    } else if is_text(tag, "content_block_delta") {
        match (j.count_at("index"), j.get("delta")) {
            (Some(index), Some(d)) => match decode_delta(d) {
                Some(delta) => Some(MessagesStreamEvent::ContentBlockDelta { index, delta }),
                None => None,
            },
            _ => None,
        }
    } else if is_text(tag, "content_block_stop") {
        match j.count_at("index") {
            Some(index) => Some(MessagesStreamEvent::ContentBlockStop { index }),
            None => None,
        }
    } else if is_text(tag, "message_delta") {
        match (j.get("delta"), j.get("usage")) {
            (Some(d), Some(u)) => match (decode_message_delta(d), u.count_at("output_tokens")) {
                (Some(delta), Some(n)) => Some(
                    MessagesStreamEvent::MessageDelta {
                        delta,
                        usage: MessageDeltaUsage { output_tokens: n },
                    },
                ),
                _ => None,
            },
            _ => None,
        }
    } else if is_text(tag, "message_stop") {
        Some(MessagesStreamEvent::MessageStop)
    } else {
        None
    }
}

/// Says what a value of a message stream stands for: an event, an error
/// frame, or nothing, where it is malformed.
pub fn interpret(j: &Json) -> (r: Option<Incoming>)
    ensures
        opt_view(r) == incoming_of(*j),
{
    match j.text_at("type") {
        Some(tag) => {
            let known = is_text(&tag, "message_start") || is_text(&tag, "content_block_start")
                || is_text(&tag, "content_block_delta") || is_text(&tag, "content_block_stop")
                || is_text(&tag, "message_delta") || is_text(&tag, "message_stop");
            if known {
                match decode_event(j, &tag) {
                    Some(e) => Some(Incoming::Event(e)),
                    None => None,
                }
            } else {
                match j.text_at("message") {
                    Some(message) => Some(
                        Incoming::Error(StreamError { error_type: tag, message }),
                    ),
                    None => None,
                }
            }
        },
        None => None,
    }
}

/// Decodes a fragment of a completion stream.
pub fn decode_completion(j: &Json) -> (r: Option<CompleteResponse>)
    ensures
        opt_view(r) == completion_of(*j),
{
    match (j.text_at("completion"), decode_reason(j, "stop_reason")) {
        (Some(completion), Some(stop_reason)) => Some(CompleteResponse { completion, stop_reason }),
        _ => None,
    }
}

/// Says what a frame of a message stream stands for, given the value that
/// its payload parsed to: a payload that is no JSON document, or whose value
/// is no event and no error frame, is a malformed event that carries the
/// payload.
pub fn read_frame(payload: Vec<u8>, value: Option<Json>) -> (r: Result<Incoming, StreamFailure>)
    ensures
        outcome_view(r) == frame_meaning(payload@, value),
{
    match value {
        Some(j) => match interpret(&j) {
            Some(incoming) => Ok(incoming),
            None => Err(StreamFailure::MalformedEvent { raw: payload }),
        },
        None => Err(StreamFailure::MalformedEvent { raw: payload }),
    }
}

/// Decodes the payload of a frame of a message stream.
pub fn decode_frame(payload: Vec<u8>) -> (r: Result<Incoming, StreamFailure>)
    ensures
        outcome_view(r) == frame_meaning(payload@, parsed(payload@)),
{
    let value = Json::parse(payload.as_slice());
    read_frame(payload, value)
}

/// Says what a frame of a completion stream stands for, given the value
/// that its payload parsed to.
pub fn read_fragment(payload: Vec<u8>, value: Option<Json>) -> (r: Result<
    CompleteResponse,
    StreamFailure,
>)
    ensures
        outcome_view(r) == fragment_meaning(payload@, value),
{
    match value {
        Some(j) => match decode_completion(&j) {
            Some(fragment) => Ok(fragment),
            None => Err(StreamFailure::MalformedEvent { raw: payload }),
        },
        None => Err(StreamFailure::MalformedEvent { raw: payload }),
    }
}

/// Decodes the payload of a frame of a completion stream.
pub fn decode_fragment(payload: Vec<u8>) -> (r: Result<CompleteResponse, StreamFailure>)
    ensures
        outcome_view(r) == fragment_meaning(payload@, parsed(payload@)),
{
    let value = Json::parse(payload.as_slice());
    read_fragment(payload, value)
}

} // verus!
