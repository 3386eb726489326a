use anthropic::decode::decode_message;
use anthropic::json::Json;
use anthropic::request::{
    encode_complete_request, encode_message, encode_messages, encode_texts,
    encode_token_count_request,
};
use anthropic::types::{CompleteRequest, ContentBlock, Message, Role, TokenCountRequest};

fn text(s: &str) -> Json {
    Json::Text(s.to_string())
}

fn hello() -> Message {
    Message { role: Role::User, content: vec![ContentBlock::Text { text: "Hello".to_string() }] }
}

fn hello_json() -> Json {
    Json::Object(vec![
        ("role".to_string(), text("user")),
        (
            "content".to_string(),
            Json::Array(vec![Json::Object(vec![
                ("type".to_string(), text("text")),
                ("text".to_string(), text("Hello")),
            ])]),
        ),
    ])
}

#[test]
fn message_is_written_and_read_back() {
    let j = encode_message(&hello());
    assert_eq!(j, hello_json());
    assert_eq!(decode_message(&j), Some(hello()));
    assert_eq!(encode_messages(&vec![hello(), hello()]), Json::Array(vec![hello_json(), hello_json()]));
}

#[test]
fn empty_system_prompt_is_left_out() {
    let r = TokenCountRequest {
        messages: vec![hello()],
        system: String::new(),
        model: "m".to_string(),
    };
    let j = encode_token_count_request(&r);
    assert_eq!(
        j,
        Json::Object(vec![
            ("messages".to_string(), Json::Array(vec![hello_json()])),
            ("model".to_string(), text("m")),
        ])
    );
    assert_eq!(j.get("system"), None);
}

#[test]
fn system_prompt_is_written_when_there_is_one() {
    let r = TokenCountRequest {
        messages: Vec::new(),
        system: "Be brief.".to_string(),
        model: "m".to_string(),
    };
    assert_eq!(
        encode_token_count_request(&r),
        Json::Object(vec![
            ("messages".to_string(), Json::Array(Vec::new())),
            ("system".to_string(), text("Be brief.")),
            ("model".to_string(), text("m")),
        ])
    );
}

#[test]
fn complete_request_is_written_member_by_member() {
    let r = CompleteRequest {
        prompt: "Hi".to_string(),
        model: "m".to_string(),
        max_tokens_to_sample: 256,
        stop_sequences: Some(vec!["\n\nHuman:".to_string()]),
        stream: true,
    };
    assert_eq!(
        encode_complete_request(&r),
        Json::Object(vec![
            ("prompt".to_string(), text("Hi")),
            ("model".to_string(), text("m")),
            ("max_tokens_to_sample".to_string(), Json::Number(Some(256))),
            ("stop_sequences".to_string(), Json::Array(vec![text("\n\nHuman:")])),
            ("stream".to_string(), Json::Bool(true)),
        ])
    );
    let bare = CompleteRequest {
        prompt: String::new(),
        model: String::new(),
        max_tokens_to_sample: 0,
        stop_sequences: None,
        stream: false,
    };
    let j = encode_complete_request(&bare);
    assert_eq!(j.get("stop_sequences"), Some(&Json::Null));
    assert_eq!(j.get("stream"), Some(&Json::Bool(false)));
    assert_eq!(j.count_at("max_tokens_to_sample"), Some(0));
    assert_eq!(encode_texts(&Vec::new()), Json::Array(Vec::new()));
}
