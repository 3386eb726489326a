//! The response of the messages endpoint as a JSON value: how it is read,
//! how it is written, and that reading what was written gives it back.
use vstd::prelude::*;
use vstd::string::StringExecFns;
use crate::decode::{
    block_of, blocks_of, decode_blocks, optional_reason, reason_named, role_named,
};
use crate::json::{
    count_field, field, is_text, lemma_lookup_finds, member_names, optional_text_field, put,
    text_field, Json,
};
use crate::types::{
    blocks_view, opt_view, ContentBlock, ContentBlockView, MessagesResponse,
    MessagesResponseView, Role, StopReason, Usage,
};

verus! {

/// The usage counters that a value stands for.
pub open spec fn usage_of(j: Json) -> Option<Usage> {
    match (count_field(j, "input_tokens"@), count_field(j, "output_tokens"@)) {
        (Some(input_tokens), Some(output_tokens)) => Some(Usage { input_tokens, output_tokens }),
        _ => None,
    }
}

/// The role member of a value.
pub open spec fn role_of(j: Json) -> Option<Role> {
    match text_field(j, "role"@) {
        Some(tag) => role_named(tag),
        None => None,
    }
}

/// The content member of a value.
pub open spec fn content_of(j: Json) -> Option<Seq<ContentBlockView>> {
    match field(j, "content"@) {
        Some(items) => blocks_of(items),
        None => None,
    }
}

/// The usage member of a value.
pub open spec fn usage_member(j: Json) -> Option<Usage> {
    match field(j, "usage"@) {
        Some(u) => usage_of(u),
        None => None,
    }
}

/// The response that a value stands for: every member but the two optional
/// ones must be there, and an optional one that is absent or `null` stays
/// absent.
pub open spec fn response_of(j: Json) -> Option<MessagesResponseView> {
    if text_field(j, "id"@) is Some && text_field(j, "type"@) is Some && role_of(j) is Some
        && content_of(j) is Some && text_field(j, "model"@) is Some && optional_reason(
        j,
        "stop_reason"@,
    ) is Some && optional_text_field(j, "stop_sequence"@) is Some && usage_member(j) is Some {
        Some(
            MessagesResponseView {
                id: text_field(j, "id"@)->0,
                kind: text_field(j, "type"@)->0,
                role: role_of(j)->0,
                content: content_of(j)->0,
                model: text_field(j, "model"@)->0,
                stop_reason: optional_reason(j, "stop_reason"@)->0,
                stop_sequence: optional_text_field(j, "stop_sequence"@)->0,
                usage: usage_member(j)->0,
            },
        )
    } else {
        None
    }
}

/// Reads usage counters.
pub fn decode_usage(j: &Json) -> (r: Option<Usage>)
    ensures
        r == usage_of(*j),
{
    match (j.count_at("input_tokens"), j.count_at("output_tokens")) {
        (Some(input_tokens), Some(output_tokens)) => Some(Usage { input_tokens, output_tokens }),
        _ => None,
    }
}

/// Reads a response.
pub fn decode_response(j: &Json) -> (r: Option<MessagesResponse>)
    ensures
        opt_view(r) == response_of(*j),
{
    let id = j.text_at("id");
    let kind = j.text_at("type");
    let role = match j.text_at("role") {
        Some(tag) => {
            if is_text(&tag, "user") {
                Some(Role::User)
            } else if is_text(&tag, "assistant") {
                Some(Role::Assistant)
            } else {
                None
            }
        },
        None => None,
    };
    let content = match j.get("content") {
        Some(items) => decode_blocks(items),
        None => None,
    };
    let model = j.text_at("model");
    let stop_reason = match j.optional_text_at("stop_reason") {
        None => None,
        Some(None) => Some(None),
        Some(Some(tag)) => {
            if is_text(&tag, "end_turn") {
                Some(Some(StopReason::EndTurn))
            } else if is_text(&tag, "max_tokens") {
                Some(Some(StopReason::MaxTokens))
            } else if is_text(&tag, "stop_sequence") {
                Some(Some(StopReason::StopSequence))
            } else {
                None
            }
        },
    };
    let stop_sequence = j.optional_text_at("stop_sequence");
    let usage = match j.get("usage") {
        Some(u) => decode_usage(u),
        None => None,
    };
    match (id, kind, role, content) {
        (Some(id), Some(kind), Some(role), Some(content)) => match (
            model,
            stop_reason,
            stop_sequence,
            usage,
        ) {
            (Some(model), Some(stop_reason), Some(stop_sequence), Some(usage)) => Some(
                MessagesResponse {
                    id,
                    kind,
                    role,
                    content,
                    model,
                    stop_reason,
                    stop_sequence,
                    usage,
                },
            ),
            _ => None,
        },
        _ => None,
    }
}

/// The response that a text stands for, given the value that the text
/// parses to.
pub open spec fn response_in(value: Option<Json>) -> Option<MessagesResponseView> {
    match value {
        Some(j) => response_of(j),
        None => None,
    }
}

/// Reads a response from its text; `None` where the text is no JSON document
/// or its value is no response.
pub fn read_response(text: &[u8]) -> (r: Option<MessagesResponse>)
    ensures
        opt_view(r) == response_in(crate::json::parsed(text@)),
{
    match Json::parse(text) {
        Some(j) => decode_response(&j),
        None => None,
    }
}

/// The names of the members differ from one another.
proof fn lemma_names_differ()
    ensures
        "type"@ != "text"@,
        "type"@ != "source"@,
        "type"@ != "media_type"@,
        "type"@ != "data"@,
        "source"@ != "media_type"@,
        "source"@ != "data"@,
        "media_type"@ != "data"@,
        "text"@ != "image"@,
        "user"@ != "assistant"@,
        "end_turn"@ != "max_tokens"@,
        "end_turn"@ != "stop_sequence"@,
        "max_tokens"@ != "stop_sequence"@,
        "input_tokens"@ != "output_tokens"@,
        "id"@ != "type"@,
        "id"@ != "role"@,
        "id"@ != "content"@,
        "id"@ != "model"@,
        "id"@ != "stop_reason"@,
        "id"@ != "stop_sequence"@,
        "id"@ != "usage"@,
        "type"@ != "role"@,
        "type"@ != "content"@,
        "type"@ != "model"@,
        "type"@ != "stop_reason"@,
        "type"@ != "stop_sequence"@,
        "type"@ != "usage"@,
        "role"@ != "content"@,
        "role"@ != "model"@,
        "role"@ != "stop_reason"@,
        "role"@ != "stop_sequence"@,
        "role"@ != "usage"@,
        "content"@ != "model"@,
        "content"@ != "stop_reason"@,
        "content"@ != "stop_sequence"@,
        "content"@ != "usage"@,
        "model"@ != "stop_reason"@,
        "model"@ != "stop_sequence"@,
        "model"@ != "usage"@,
        "stop_reason"@ != "stop_sequence"@,
        "stop_reason"@ != "usage"@,
        "stop_sequence"@ != "usage"@,
{
    reveal_strlit("type");
    reveal_strlit("text");
    reveal_strlit("source");
    reveal_strlit("media_type");
    reveal_strlit("data");
    reveal_strlit("image");
    reveal_strlit("user");
    reveal_strlit("assistant");
    reveal_strlit("end_turn");
    reveal_strlit("max_tokens");
    reveal_strlit("stop_sequence");
    reveal_strlit("input_tokens");
    reveal_strlit("output_tokens");
    reveal_strlit("id");
    reveal_strlit("role");
    reveal_strlit("content");
    reveal_strlit("model");
    reveal_strlit("stop_reason");
    reveal_strlit("usage");
    assert("type"@.len() == 4);
    assert("text"@.len() == 4);
    assert("source"@.len() == 6);
    assert("media_type"@.len() == 10);
    assert("data"@.len() == 4);
    assert("image"@.len() == 5);
    assert("user"@.len() == 4);
    assert("assistant"@.len() == 9);
    assert("end_turn"@.len() == 8);
    assert("max_tokens"@.len() == 10);
    assert("stop_sequence"@.len() == 13);
    assert("input_tokens"@.len() == 12);
    assert("output_tokens"@.len() == 13);
    assert("id"@.len() == 2);
    assert("role"@.len() == 4);
    assert("content"@.len() == 7);
    assert("model"@.len() == 5);
    assert("stop_reason"@.len() == 11);
    assert("usage"@.len() == 5);
    assert("type"@[1] != "text"@[1]);
    assert("type"@[1] != "data"@[1]);
    assert("type"@[1] != "role"@[1]);
    assert("model"@[0] != "usage"@[0]);
}

/// Writes a content block.
pub fn encode_block(b: &ContentBlock) -> (j: Json)
    ensures
        block_of(j) == Some(b@),
        member_names(j) == (if b@ is Text {
            seq!["type"@, "text"@]
        } else {
            seq!["type"@, "source"@, "media_type"@, "data"@]
        }),
{
    let mut entries: Vec<(String, Json)> = Vec::new();
    proof {
        lemma_names_differ();
    }
    match b {
        ContentBlock::Text { text } => {
            put(&mut entries, "type", Json::Text(String::from_str("text")));
            put(&mut entries, "text", Json::Text(text.clone()));
            proof {
                lemma_lookup_finds(entries@, "type"@, 0, 0);
                lemma_lookup_finds(entries@, "text"@, 1, 0);
            }
        },
        ContentBlock::Image { source, media_type, data } => {
            put(&mut entries, "type", Json::Text(String::from_str("image")));
            put(&mut entries, "source", Json::Text(source.clone()));
            put(&mut entries, "media_type", Json::Text(media_type.clone()));
            put(&mut entries, "data", Json::Text(data.clone()));
            proof {
                lemma_lookup_finds(entries@, "type"@, 0, 0);
                lemma_lookup_finds(entries@, "source"@, 1, 0);
                lemma_lookup_finds(entries@, "media_type"@, 2, 0);
                lemma_lookup_finds(entries@, "data"@, 3, 0);
            }
        },
    }
    let j = Json::Object(entries);
    assert(b@ is Text ==> member_names(j) =~= seq!["type"@, "text"@]);
    assert(!(b@ is Text) ==> member_names(j) =~= seq![
        "type"@,
        "source"@,
        "media_type"@,
        "data"@,
    ]);
    j
}

/// Writes a list of content blocks.
pub fn encode_blocks(blocks: &Vec<ContentBlock>) -> (j: Json)
    ensures
        blocks_of(j) == Some(blocks_view(blocks@)),
        j is Array,
        j->Array_0@.len() == blocks@.len(),
{
    let mut items: Vec<Json> = Vec::new();
    let mut i: usize = 0;
    while i < blocks.len()
        invariant
            i <= blocks@.len(),
            items@.len() == i,
            forall|k: int| 0 <= k < i ==> (#[trigger] block_of(items@[k])) == Some(blocks@[k]@),
        decreases blocks@.len() - i,
    {
        items.push(encode_block(&blocks[i]));
        i += 1;
    }
    let j = Json::Array(items);
    assert(blocks_of(j)->0 =~= blocks_view(blocks@));
    j
}

/// Writes a role's tag.
pub fn encode_role(role: Role) -> (j: Json)
    ensures
        j is Text,
        role_named(j->Text_0@) == Some(role),
{
    proof {
        lemma_names_differ();
    }
    match role {
        Role::User => Json::Text(String::from_str("user")),
        Role::Assistant => Json::Text(String::from_str("assistant")),
    }
}

/// Writes an optional stop reason: `null` where there is none.
fn encode_reason(reason: Option<StopReason>) -> (j: Json)
    ensures
        match reason {
            Some(r) => j is Text && reason_named(j->Text_0@) == Some(r),
            None => j is Null,
        },
{
    proof {
        lemma_names_differ();
    }
    match reason {
        Some(StopReason::EndTurn) => Json::Text(String::from_str("end_turn")),
        Some(StopReason::MaxTokens) => Json::Text(String::from_str("max_tokens")),
        Some(StopReason::StopSequence) => Json::Text(String::from_str("stop_sequence")),
        None => Json::Null,
    }
}

/// Writes a count, where it fits the 64 bits of a JSON integer here.
pub fn encode_count(n: usize) -> (j: Json)
    ensures
        j == Json::Number(Some(n as u64)),
        n as u64 as usize == n,
{
    Json::Number(Some(n as u64))
}

/// Writes usage counters.
pub fn encode_usage(usage: Usage) -> (j: Json)
    ensures
        usage_of(j) == Some(usage),
        member_names(j) == seq!["input_tokens"@, "output_tokens"@],
{
    let mut entries: Vec<(String, Json)> = Vec::new();
    put(&mut entries, "input_tokens", encode_count(usage.input_tokens));
    put(&mut entries, "output_tokens", encode_count(usage.output_tokens));
    proof {
        lemma_names_differ();
        lemma_lookup_finds(entries@, "input_tokens"@, 0, 0);
        lemma_lookup_finds(entries@, "output_tokens"@, 1, 0);
    }
    let j = Json::Object(entries);
    assert(member_names(j) =~= seq!["input_tokens"@, "output_tokens"@]);
    j
}

/// Writes a response, member by member in the order of its fields. An
/// absent stop reason or stop sequence is written as `null`. Reading the value back gives an equal response, member for
/// member, with what was absent still absent.
pub fn encode_response(r: &MessagesResponse) -> (j: Json)
    ensures
        response_of(j) == Some(r@),
        member_names(j) == seq![
            "id"@,
            "type"@,
            "role"@,
            "content"@,
            "model"@,
            "stop_reason"@,
            "stop_sequence"@,
            "usage"@,
        ],
        r.stop_reason is None ==> field(j, "stop_reason"@) == Some(Json::Null),
        r.stop_sequence is None ==> field(j, "stop_sequence"@) == Some(Json::Null),
{
    let mut entries: Vec<(String, Json)> = Vec::new();
    put(&mut entries, "id", Json::Text(r.id.clone()));
    put(&mut entries, "type", Json::Text(r.kind.clone()));
    put(&mut entries, "role", encode_role(r.role));
    put(&mut entries, "content", encode_blocks(&r.content));
    put(&mut entries, "model", Json::Text(r.model.clone()));
    put(&mut entries, "stop_reason", encode_reason(r.stop_reason));
    let sequence = match &r.stop_sequence {
        Some(s) => Json::Text(s.clone()),
        None => Json::Null,
    };
    put(&mut entries, "stop_sequence", sequence);
    put(&mut entries, "usage", encode_usage(r.usage));
    proof {
        lemma_names_differ();
        lemma_lookup_finds(entries@, "id"@, 0, 0);
        lemma_lookup_finds(entries@, "type"@, 1, 0);
        lemma_lookup_finds(entries@, "role"@, 2, 0);
        lemma_lookup_finds(entries@, "content"@, 3, 0);
        lemma_lookup_finds(entries@, "model"@, 4, 0);
        lemma_lookup_finds(entries@, "stop_reason"@, 5, 0);
        lemma_lookup_finds(entries@, "stop_sequence"@, 6, 0);
        lemma_lookup_finds(entries@, "usage"@, 7, 0);
    }
    let j = Json::Object(entries);
    assert(member_names(j) =~= seq![
        "id"@,
        "type"@,
        "role"@,
        "content"@,
        "model"@,
        "stop_reason"@,
        "stop_sequence"@,
        "usage"@,
    ]);
    j
}

} // verus!
