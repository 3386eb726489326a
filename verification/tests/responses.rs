use anthropic::json::Json;
use anthropic::response::{
    decode_response, decode_usage, encode_block, encode_blocks, encode_response, encode_usage,
};
use anthropic::types::{ContentBlock, MessagesResponse, Role, StopReason, Usage};

fn sample(stop_reason: Option<StopReason>, stop_sequence: Option<&str>) -> MessagesResponse {
    MessagesResponse {
        id: "msg_01".to_string(),
        kind: "message".to_string(),
        role: Role::Assistant,
        content: vec![
            ContentBlock::Text { text: "Hi, I'm here.".to_string() },
            ContentBlock::Image {
                source: "base64".to_string(),
                media_type: "image/png".to_string(),
                data: "AAAA".to_string(),
            },
        ],
        model: "some-model".to_string(),
        stop_reason,
        stop_sequence: stop_sequence.map(|s| s.to_string()),
        usage: Usage { input_tokens: 10, output_tokens: 25 },
    }
}

#[test]
fn response_survives_writing_and_reading() {
    for r in [
        sample(None, None),
        sample(Some(StopReason::EndTurn), None),
        sample(Some(StopReason::MaxTokens), None),
        sample(Some(StopReason::StopSequence), Some("END")),
    ] {
        assert_eq!(decode_response(&encode_response(&r)), Some(r));
    }
}

#[test]
fn absent_members_are_written_as_null() {
    let j = encode_response(&sample(None, None));
    assert_eq!(j.get("stop_reason"), Some(&Json::Null));
    assert_eq!(j.get("stop_sequence"), Some(&Json::Null));
    assert_eq!(j.get("type"), Some(&Json::Text("message".to_string())));
    assert_eq!(j.get("role"), Some(&Json::Text("assistant".to_string())));
}

#[test]
fn response_is_read_from_text() {
    let text = b"{\"id\":\"msg_01\",\"type\":\"message\",\"role\":\"assistant\",\"content\":[{\"type\":\"text\",\"text\":\"Hi\"}],\"model\":\"m\",\"stop_reason\":\"end_turn\",\"stop_sequence\":null,\"usage\":{\"input_tokens\":3,\"output_tokens\":4}}";
    let j = Json::parse(text).unwrap();
    assert_eq!(
        decode_response(&j),
        Some(MessagesResponse {
            id: "msg_01".to_string(),
            kind: "message".to_string(),
            role: Role::Assistant,
            content: vec![ContentBlock::Text { text: "Hi".to_string() }],
            model: "m".to_string(),
            stop_reason: Some(StopReason::EndTurn),
            stop_sequence: None,
            usage: Usage { input_tokens: 3, output_tokens: 4 },
        })
    );
}

#[test]
fn incomplete_response_is_not_read() {
    let no_usage = b"{\"id\":\"a\",\"type\":\"message\",\"role\":\"assistant\",\"content\":[],\"model\":\"m\"}";
    assert_eq!(decode_response(&Json::parse(no_usage).unwrap()), None);
    let bad_role = b"{\"id\":\"a\",\"type\":\"message\",\"role\":\"robot\",\"content\":[],\"model\":\"m\",\"usage\":{\"input_tokens\":3,\"output_tokens\":4}}";
    assert_eq!(decode_response(&Json::parse(bad_role).unwrap()), None);
    assert_eq!(decode_response(&Json::Null), None);
}

#[test]
fn parts_are_written_as_objects() {
    assert_eq!(
        encode_block(&ContentBlock::Text { text: "x".to_string() }),
        Json::Object(vec![
            ("type".to_string(), Json::Text("text".to_string())),
            ("text".to_string(), Json::Text("x".to_string())),
        ])
    );
    assert_eq!(encode_blocks(&Vec::new()), Json::Array(Vec::new()));
    let u = Usage { input_tokens: 1, output_tokens: 2 };
    assert_eq!(
        encode_usage(u),
        Json::Object(vec![
            ("input_tokens".to_string(), Json::Number(Some(1))),
            ("output_tokens".to_string(), Json::Number(Some(2))),
        ])
    );
    assert_eq!(decode_usage(&encode_usage(u)), Some(u));
}

#[test]
fn response_survives_writing_and_reading_as_text() {
    for r in [
        sample(None, None),
        sample(Some(StopReason::EndTurn), None),
        sample(Some(StopReason::StopSequence), Some("END")),
    ] {
        let text = encode_response(&r).render().unwrap();
        assert_eq!(anthropic::response::read_response(&text), Some(r));
    }
    assert_eq!(anthropic::response::read_response(b"{\"id\":"), None);
    assert_eq!(anthropic::response::read_response(b"{}"), None);
}

#[test]
fn values_are_rendered_as_text() {
    assert_eq!(Json::Null.render(), Some(b"null".to_vec()));
    assert_eq!(Json::Bool(false).render(), Some(b"false".to_vec()));
    assert_eq!(Json::Number(Some(42)).render(), Some(b"42".to_vec()));
    assert_eq!(Json::Text("a\"b".to_string()).render(), Some(b"\"a\\\"b\"".to_vec()));
    assert_eq!(
        Json::Array(vec![Json::Number(Some(1)), Json::Null]).render(),
        Some(b"[1,null]".to_vec())
    );
    assert_eq!(
        encode_usage(Usage { input_tokens: 1, output_tokens: 2 }).render(),
        Some(b"{\"input_tokens\":1,\"output_tokens\":2}".to_vec())
    );
    let text = Json::Object(vec![("k".to_string(), Json::Text("v".to_string()))]).render().unwrap();
    assert_eq!(Json::parse(&text), Some(Json::Object(vec![("k".to_string(), Json::Text("v".to_string()))])));
}
