//! Payload model: prompts, messages, content blocks, stop reasons, usage
//! counters and the two response shapes, each with its mathematical view.
use vstd::prelude::*;
use vstd::string::StringExecFns;

verus! {

/// Speaker of a message.
#[derive(Copy, Clone, Debug, PartialEq, Eq, Structural)]
pub enum Role {
    User,
    Assistant,
}

impl Default for Role {
    fn default() -> (r: Role)
        ensures
            r == Role::User,
    {
        Role::User
    }
}

/// Reason for stopping the response generation.
#[derive(Copy, Clone, Debug, PartialEq, Eq, Structural)]
pub enum StopReason {
    /// The model reached a natural stopping point.
    EndTurn,
    /// The requested maximum number of tokens was exceeded.
    MaxTokens,
    /// One of the provided custom stop sequences was generated.
    StopSequence,
}

/// Billing and rate-limit usage.
#[derive(Copy, Clone, Debug, PartialEq, Eq, Structural)]
pub struct Usage {
    /// The number of input tokens which were used.
    pub input_tokens: usize,
    /// The number of output tokens which were used.
    pub output_tokens: usize,
}

/// Response body of a token count.
#[derive(Clone, Debug, PartialEq, Eq)]
pub struct TokenCountResponse {
    pub input_tokens: usize,
}

/// Running output-token count carried by a message delta.
#[derive(Copy, Clone, Debug, PartialEq, Eq, Structural)]
pub struct MessageDeltaUsage {
    pub output_tokens: usize,
}

/// One unit of message content.
#[derive(Debug, PartialEq, Eq)]
pub enum ContentBlock {
    Text { text: String },
    Image { source: String, media_type: String, data: String },
}

/// Mathematical value of a [`ContentBlock`].
pub enum ContentBlockView {
    Text { text: Seq<char> },
    Image { source: Seq<char>, media_type: Seq<char>, data: Seq<char> },
}

impl View for ContentBlock {
    type V = ContentBlockView;

    open spec fn view(&self) -> ContentBlockView {
        match self {
            ContentBlock::Text { text } => ContentBlockView::Text { text: text@ },
            ContentBlock::Image { source, media_type, data } => ContentBlockView::Image {
                source: source@,
                media_type: media_type@,
                data: data@,
            },
        }
    }
}

impl Clone for ContentBlock {
    fn clone(&self) -> (r: ContentBlock)
        ensures
            r@ == self@,
    {
        match self {
            ContentBlock::Text { text } => ContentBlock::Text { text: text.clone() },
            ContentBlock::Image { source, media_type, data } => ContentBlock::Image {
                source: source.clone(),
                media_type: media_type.clone(),
                data: data.clone(),
            },
        }
    }
}

/// The views of a sequence of content blocks, in order.
pub open spec fn blocks_view(blocks: Seq<ContentBlock>) -> Seq<ContentBlockView> {
    Seq::new(blocks.len(), |i: int| blocks[i]@)
}

/// Copies a list of content blocks.
pub fn clone_blocks(blocks: &Vec<ContentBlock>) -> (r: Vec<ContentBlock>)
    ensures
        blocks_view(r@) == blocks_view(blocks@),
{
    let mut out: Vec<ContentBlock> = Vec::new();
    let mut i: usize = 0;
    while i < blocks.len()
        invariant
            i <= blocks.len(),
            out@.len() == i,
            forall|j: int| 0 <= j < i ==> out@[j]@ == blocks@[j]@,
        decreases blocks.len() - i,
    {
        out.push(blocks[i].clone());
        i += 1;
    }
    assert(blocks_view(out@) =~= blocks_view(blocks@));
    out
}

/// A prompt or reply: who speaks, and what.
#[derive(Debug, PartialEq, Eq)]
pub struct Message {
    pub role: Role,
    pub content: Vec<ContentBlock>,
}

/// Mathematical value of a [`Message`].
pub struct MessageView {
    pub role: Role,
    pub content: Seq<ContentBlockView>,
}

impl View for Message {
    type V = MessageView;

    open spec fn view(&self) -> MessageView {
        MessageView { role: self.role, content: blocks_view(self.content@) }
    }
}

impl Clone for Message {
    fn clone(&self) -> (r: Message)
        ensures
            r@ == self@,
    {
        Message { role: self.role, content: clone_blocks(&self.content) }
    }
}

/// Request of a single-shot completion.
#[derive(Clone, Debug, PartialEq, Eq)]
pub struct CompleteRequest {
    /// The prompt to complete.
    pub prompt: String,
    /// The model to use.
    pub model: String,
    /// The number of tokens to sample.
    pub max_tokens_to_sample: usize,
    /// The stop sequences to use.
    pub stop_sequences: Option<Vec<String>>,
    /// Whether to incrementally stream the response.
    pub stream: bool,
}

/// Request of a token count.
#[derive(Clone, Debug, PartialEq, Eq)]
pub struct TokenCountRequest {
    /// The user and assistant prompts.
    pub messages: Vec<Message>,
    /// The system prompt.
    pub system: String,
    /// The model to use.
    pub model: String,
}

/// Result of the completion endpoint: the text so far and, once generation
/// has ended, why it ended.
#[derive(Debug, PartialEq, Eq)]
pub struct CompleteResponse {
    pub completion: String,
    pub stop_reason: Option<StopReason>,
}

/// Mathematical value of a [`CompleteResponse`].
pub struct CompleteResponseView {
    pub completion: Seq<char>,
    pub stop_reason: Option<StopReason>,
}

impl View for CompleteResponse {
    type V = CompleteResponseView;

    open spec fn view(&self) -> CompleteResponseView {
        CompleteResponseView { completion: self.completion@, stop_reason: self.stop_reason }
    }
}

impl Clone for CompleteResponse {
    fn clone(&self) -> (r: CompleteResponse)
        ensures
            r@ == self@,
    {
        CompleteResponse { completion: self.completion.clone(), stop_reason: self.stop_reason }
    }
}

/// The view of an optional value.
pub open spec fn opt_view<T: View>(o: Option<T>) -> Option<T::V> {
    match o {
        Some(t) => Some(t@),
        None => None,
    }
}

/// The view of an optional string.
pub open spec fn opt_text(s: Option<String>) -> Option<Seq<char>> {
    match s {
        Some(t) => Some(t@),
        None => None,
    }
}

/// Copies an optional string.
pub fn clone_opt_text(s: &Option<String>) -> (r: Option<String>)
    ensures
        opt_text(r) == opt_text(*s),
{
    match s {
        Some(t) => Some(t.clone()),
        None => None,
    }
}

/// Response body of the messages endpoint.
#[derive(Debug, PartialEq, Eq)]
pub struct MessagesResponse {
    /// Unique object identifier.
    pub id: String,
    /// Object type; for messages this is always "message".
    pub kind: String,
    /// Conversational role of the generated message.
    pub role: Role,
    /// Content generated by the model.
    pub content: Vec<ContentBlock>,
    /// The model that handled the request.
    pub model: String,
    /// The reason that generation stopped; absent while still generating.
    pub stop_reason: Option<StopReason>,
    /// Which custom stop sequence was generated, if any.
    pub stop_sequence: Option<String>,
    /// Billing and rate-limit usage.
    pub usage: Usage,
}

/// Mathematical value of a [`MessagesResponse`].
pub struct MessagesResponseView {
    pub id: Seq<char>,
    pub kind: Seq<char>,
    pub role: Role,
    pub content: Seq<ContentBlockView>,
    pub model: Seq<char>,
    pub stop_reason: Option<StopReason>,
    pub stop_sequence: Option<Seq<char>>,
    pub usage: Usage,
}

impl View for MessagesResponse {
    type V = MessagesResponseView;

    open spec fn view(&self) -> MessagesResponseView {
        MessagesResponseView {
            id: self.id@,
            kind: self.kind@,
            role: self.role,
            content: blocks_view(self.content@),
            model: self.model@,
            stop_reason: self.stop_reason,
            stop_sequence: opt_text(self.stop_sequence),
            usage: self.usage,
        }
    }
}

impl Clone for MessagesResponse {
    fn clone(&self) -> (r: MessagesResponse)
        ensures
            r@ == self@,
    {
        MessagesResponse {
            id: self.id.clone(),
            kind: self.kind.clone(),
            role: self.role,
            content: clone_blocks(&self.content),
            model: self.model.clone(),
            stop_reason: self.stop_reason,
            stop_sequence: clone_opt_text(&self.stop_sequence),
            usage: self.usage,
        }
    }
}

/// Incremental update of one content block.
#[derive(Debug, PartialEq, Eq)]
pub enum ContentBlockDelta {
    TextDelta { text: String },
}

/// Mathematical value of a [`ContentBlockDelta`].
pub enum ContentBlockDeltaView {
    TextDelta { text: Seq<char> },
}

impl View for ContentBlockDelta {
    type V = ContentBlockDeltaView;

    open spec fn view(&self) -> ContentBlockDeltaView {
        match self {
            ContentBlockDelta::TextDelta { text } => ContentBlockDeltaView::TextDelta { text: text@ },
        }
    }
}

impl Clone for ContentBlockDelta {
    fn clone(&self) -> (r: ContentBlockDelta)
        ensures
            r@ == self@,
    {
        match self {
            ContentBlockDelta::TextDelta { text } => ContentBlockDelta::TextDelta {
                text: text.clone(),
            },
        }
    }
}

/// Terminal fields of a message, delivered near the end of a stream.
#[derive(Debug, PartialEq, Eq)]
pub struct MessageDelta {
    /// The reason that generation stopped.
    pub stop_reason: Option<StopReason>,
    /// Which custom stop sequence was generated, if any.
    pub stop_sequence: Option<String>,
}

/// Mathematical value of a [`MessageDelta`].
pub struct MessageDeltaView {
    pub stop_reason: Option<StopReason>,
    pub stop_sequence: Option<Seq<char>>,
}

impl View for MessageDelta {
    type V = MessageDeltaView;

    open spec fn view(&self) -> MessageDeltaView {
        MessageDeltaView {
            stop_reason: self.stop_reason,
            stop_sequence: opt_text(self.stop_sequence),
        }
    }
}

impl Clone for MessageDelta {
    fn clone(&self) -> (r: MessageDelta)
        ensures
            r@ == self@,
    {
        MessageDelta {
            stop_reason: self.stop_reason,
            stop_sequence: clone_opt_text(&self.stop_sequence),
        }
    }
}

/// The closed set of events that a message stream can emit.
#[derive(Debug, PartialEq, Eq)]
pub enum MessagesStreamEvent {
    MessageStart { message: Message },
    ContentBlockStart { index: usize, content_block: ContentBlock },
    ContentBlockDelta { index: usize, delta: ContentBlockDelta },
    ContentBlockStop { index: usize },
    MessageDelta { delta: MessageDelta, usage: MessageDeltaUsage },
    MessageStop,
}

/// Mathematical value of a [`MessagesStreamEvent`].
pub enum EventView {
    MessageStart { message: MessageView },
    ContentBlockStart { index: usize, content_block: ContentBlockView },
    ContentBlockDelta { index: usize, delta: ContentBlockDeltaView },
    ContentBlockStop { index: usize },
    MessageDelta { delta: MessageDeltaView, usage: MessageDeltaUsage },
    MessageStop,
}

impl View for MessagesStreamEvent {
    type V = EventView;

    open spec fn view(&self) -> EventView {
        match self {
            MessagesStreamEvent::MessageStart { message } => EventView::MessageStart {
                message: message@,
            },
            MessagesStreamEvent::ContentBlockStart { index, content_block } => {
                EventView::ContentBlockStart { index: *index, content_block: content_block@ }
            },
            MessagesStreamEvent::ContentBlockDelta { index, delta } => {
                EventView::ContentBlockDelta { index: *index, delta: delta@ }
            },
            MessagesStreamEvent::ContentBlockStop { index } => EventView::ContentBlockStop {
                index: *index,
            },
            MessagesStreamEvent::MessageDelta { delta, usage } => EventView::MessageDelta {
                delta: delta@,
                usage: *usage,
            },
            MessagesStreamEvent::MessageStop => EventView::MessageStop,
        }
    }
}

impl Clone for MessagesStreamEvent {
    fn clone(&self) -> (r: MessagesStreamEvent)
        ensures
            r@ == self@,
    {
        match self {
            MessagesStreamEvent::MessageStart { message } => MessagesStreamEvent::MessageStart {
                message: message.clone(),
            },
            MessagesStreamEvent::ContentBlockStart { index, content_block } => {
                MessagesStreamEvent::ContentBlockStart {
                    index: *index,
                    content_block: content_block.clone(),
                }
            },
            MessagesStreamEvent::ContentBlockDelta { index, delta } => {
                MessagesStreamEvent::ContentBlockDelta { index: *index, delta: delta.clone() }
            },
            MessagesStreamEvent::ContentBlockStop { index } => {
                MessagesStreamEvent::ContentBlockStop { index: *index }
            },
            MessagesStreamEvent::MessageDelta { delta, usage } => {
                MessagesStreamEvent::MessageDelta { delta: delta.clone(), usage: *usage }
            },
            MessagesStreamEvent::MessageStop => MessagesStreamEvent::MessageStop,
        }
    }
}

/// Error frame that the server may send in place of an event.
#[derive(Debug, PartialEq, Eq)]
pub struct StreamError {
    pub error_type: String,
    pub message: String,
}

/// Mathematical value of a [`StreamError`].
pub struct StreamErrorView {
    pub error_type: Seq<char>,
    pub message: Seq<char>,
}

impl View for StreamError {
    type V = StreamErrorView;

    open spec fn view(&self) -> StreamErrorView {
        StreamErrorView { error_type: self.error_type@, message: self.message@ }
    }
}

impl Clone for StreamError {
    fn clone(&self) -> (r: StreamError)
        ensures
            r@ == self@,
    {
        StreamError { error_type: self.error_type.clone(), message: self.message.clone() }
    }
}

impl StreamError {
    /// The text that describes an error with the given type and message.
    pub open spec fn rendered(error_type: Seq<char>, message: Seq<char>) -> Seq<char> {
        "Error ("@ + error_type + "): "@ + message
    }

    /// Renders the error as `Error (<type>): <message>`.
    pub fn to_string(&self) -> (r: String)
        ensures
            r@ == Self::rendered(self.error_type@, self.message@),
    {
        let head = String::from_str("Error (");
        let with_type = head.concat(self.error_type.as_str());
        let with_sep = with_type.concat("): ");
        with_sep.concat(self.message.as_str())
    }
}

} // verus!
