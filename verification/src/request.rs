//! Requests as JSON values: which members are written, and which are left
//! out because they hold nothing.
use vstd::prelude::*;
use vstd::string::StringExecFns;
use crate::decode::message_of;
use crate::json::{
    count_field, field, lemma_lookup_finds, lemma_lookup_misses, member_names, put, text_field,
    text_of, Json,
};
use crate::response::{encode_blocks, encode_count, encode_role};
use crate::types::{CompleteRequest, Message, MessageView, TokenCountRequest};

verus! {

/// The messages that an array stands for: each of its items must be one.
pub open spec fn messages_of(j: Json) -> Option<Seq<MessageView>> {
    match j {
        Json::Array(items) => if forall|i: int|
            0 <= i < items@.len() ==> (#[trigger] message_of(items@[i])) is Some {
            Some(Seq::new(items@.len(), |i: int| message_of(items@[i])->0))
        } else {
            None
        },
        _ => None,
    }
}

/// The strings that an array stands for: each of its items must be one.
pub open spec fn texts_of(j: Json) -> Option<Seq<Seq<char>>> {
    match j {
        Json::Array(items) => if forall|i: int|
            0 <= i < items@.len() ==> (#[trigger] text_of(items@[i])) is Some {
            Some(Seq::new(items@.len(), |i: int| text_of(items@[i])->0))
        } else {
            None
        },
        _ => None,
    }
}

/// The views of a list of messages, in order.
pub open spec fn messages_view(messages: Seq<Message>) -> Seq<MessageView> {
    Seq::new(messages.len(), |i: int| messages[i]@)
}

/// The views of a list of strings, in order.
pub open spec fn texts_view(texts: Seq<String>) -> Seq<Seq<char>> {
    Seq::new(texts.len(), |i: int| texts[i]@)
}

/// The names of the members of a request differ from one another.
proof fn lemma_names_differ()
    ensures
        "role"@ != "content"@,
        "messages"@ != "system"@,
        "messages"@ != "model"@,
        "system"@ != "model"@,
        "prompt"@ != "model"@,
        "prompt"@ != "max_tokens_to_sample"@,
        "prompt"@ != "stop_sequences"@,
        "prompt"@ != "stream"@,
        "model"@ != "max_tokens_to_sample"@,
        "model"@ != "stop_sequences"@,
        "model"@ != "stream"@,
        "max_tokens_to_sample"@ != "stop_sequences"@,
        "max_tokens_to_sample"@ != "stream"@,
        "stop_sequences"@ != "stream"@,
{
    reveal_strlit("role");
    reveal_strlit("content");
    reveal_strlit("messages");
    reveal_strlit("system");
    reveal_strlit("model");
    reveal_strlit("prompt");
    reveal_strlit("max_tokens_to_sample");
    reveal_strlit("stop_sequences");
    reveal_strlit("stream");
    assert("role"@.len() == 4);
    assert("content"@.len() == 7);
    assert("messages"@.len() == 8);
    assert("system"@.len() == 6);
    assert("model"@.len() == 5);
    assert("prompt"@.len() == 6);
    assert("max_tokens_to_sample"@.len() == 20);
    assert("stop_sequences"@.len() == 14);
    assert("stream"@.len() == 6);
    assert("prompt"@[0] != "stream"@[0]);
}

/// Writes a message. Reading the value back gives an equal message.
pub fn encode_message(m: &Message) -> (j: Json)
    ensures
        message_of(j) == Some(m@),
        member_names(j) == seq!["role"@, "content"@],
{
    let mut entries: Vec<(String, Json)> = Vec::new();
    put(&mut entries, "role", encode_role(m.role));
    put(&mut entries, "content", encode_blocks(&m.content));
    proof {
        lemma_names_differ();
        lemma_lookup_finds(entries@, "role"@, 0, 0);
        lemma_lookup_finds(entries@, "content"@, 1, 0);
    }
    let j = Json::Object(entries);
    assert(member_names(j) =~= seq!["role"@, "content"@]);
    j
}

/// Writes a list of messages.
pub fn encode_messages(messages: &Vec<Message>) -> (j: Json)
    ensures
        messages_of(j) == Some(messages_view(messages@)),
        j is Array,
        j->Array_0@.len() == messages@.len(),
{
    let mut items: Vec<Json> = Vec::new();
    let mut i: usize = 0;
    while i < messages.len()
        invariant
            i <= messages@.len(),
            items@.len() == i,
            forall|k: int| 0 <= k < i ==> (#[trigger] message_of(items@[k])) == Some(messages@[k]@),
        decreases messages@.len() - i,
    {
        items.push(encode_message(&messages[i]));
        i += 1;
    }
    let j = Json::Array(items);
    assert(messages_of(j)->0 =~= messages_view(messages@));
    j
}

/// Writes a list of strings.
pub fn encode_texts(texts: &Vec<String>) -> (j: Json)
    ensures
        texts_of(j) == Some(texts_view(texts@)),
        j is Array,
        j->Array_0@.len() == texts@.len(),
{
    let mut items: Vec<Json> = Vec::new();
    let mut i: usize = 0;
    while i < texts.len()
        invariant
            i <= texts@.len(),
            items@.len() == i,
            forall|k: int| 0 <= k < i ==> (#[trigger] text_of(items@[k])) == Some(texts@[k]@),
        decreases texts@.len() - i,
    {
        items.push(Json::Text(texts[i].clone()));
        i += 1;
    }
    let j = Json::Array(items);
    assert(texts_of(j)->0 =~= texts_view(texts@));
    j
}

/// Writes the request of a token count: the messages, the system prompt and
/// the model, in this order. An empty system prompt is left out.
pub fn encode_token_count_request(r: &TokenCountRequest) -> (j: Json)
    ensures
        member_names(j) == (if r.system@.len() == 0 {
            seq!["messages"@, "model"@]
        } else {
            seq!["messages"@, "system"@, "model"@]
        }),
        field(j, "messages"@) is Some,
        messages_of(field(j, "messages"@)->0) == Some(messages_view(r.messages@)),
        text_field(j, "model"@) == Some(r.model@),
        r.system@.len() == 0 ==> field(j, "system"@) is None,
        r.system@.len() > 0 ==> text_field(j, "system"@) == Some(r.system@),
{
    let mut entries: Vec<(String, Json)> = Vec::new();
    proof {
        lemma_names_differ();
    }
    put(&mut entries, "messages", encode_messages(&r.messages));
    if r.system.as_str().is_empty() {
        put(&mut entries, "model", Json::Text(r.model.clone()));
        proof {
            lemma_lookup_finds(entries@, "messages"@, 0, 0);
            lemma_lookup_finds(entries@, "model"@, 1, 0);
            lemma_lookup_misses(entries@, "system"@, 0);
        }
    } else {
        put(&mut entries, "system", Json::Text(r.system.clone()));
        put(&mut entries, "model", Json::Text(r.model.clone()));
        proof {
            lemma_lookup_finds(entries@, "messages"@, 0, 0);
            lemma_lookup_finds(entries@, "system"@, 1, 0);
            lemma_lookup_finds(entries@, "model"@, 2, 0);
        }
    }
    let j = Json::Object(entries);
    assert(r.system@.len() == 0 ==> member_names(j) =~= seq!["messages"@, "model"@]);
    assert(r.system@.len() > 0 ==> member_names(j) =~= seq!["messages"@, "system"@, "model"@]);
    j
}

/// Writes the request of a completion: the prompt, the model, the number of
/// tokens to sample, the stop sequences and the streaming flag, in this
/// order. Absent stop sequences are written as `null`.
pub fn encode_complete_request(r: &CompleteRequest) -> (j: Json)
    ensures
        member_names(j) == seq![
            "prompt"@,
            "model"@,
            "max_tokens_to_sample"@,
            "stop_sequences"@,
            "stream"@,
        ],
        text_field(j, "prompt"@) == Some(r.prompt@),
        text_field(j, "model"@) == Some(r.model@),
        count_field(j, "max_tokens_to_sample"@) == Some(r.max_tokens_to_sample),
        field(j, "stream"@) == Some(Json::Bool(r.stream)),
        field(j, "stop_sequences"@) is Some,
        match r.stop_sequences {
            Some(texts) => texts_of(field(j, "stop_sequences"@)->0) == Some(texts_view(texts@)),
            None => field(j, "stop_sequences"@) == Some(Json::Null),
        },
{
    let mut entries: Vec<(String, Json)> = Vec::new();
    put(&mut entries, "prompt", Json::Text(r.prompt.clone()));
    put(&mut entries, "model", Json::Text(r.model.clone()));
    put(&mut entries, "max_tokens_to_sample", encode_count(r.max_tokens_to_sample));
    let stops = match &r.stop_sequences {
        Some(texts) => encode_texts(texts),
        None => Json::Null,
    };
    put(&mut entries, "stop_sequences", stops);
    put(&mut entries, "stream", Json::Bool(r.stream));
    proof {
        lemma_names_differ();
        lemma_lookup_finds(entries@, "prompt"@, 0, 0);
        lemma_lookup_finds(entries@, "model"@, 1, 0);
        lemma_lookup_finds(entries@, "max_tokens_to_sample"@, 2, 0);
        lemma_lookup_finds(entries@, "stop_sequences"@, 3, 0);
        lemma_lookup_finds(entries@, "stream"@, 4, 0);
    }
    let j = Json::Object(entries);
    assert(member_names(j) =~= seq![
        "prompt"@,
        "model"@,
        "max_tokens_to_sample"@,
        "stop_sequences"@,
        "stream"@,
    ]);
    j
}

} // verus!
