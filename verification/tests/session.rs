use acrawl_runtime::message::SessionError;
use acrawl_runtime::session::JsonValue;
use acrawl_runtime::{ChildSession, ContentBlock, ConversationMessage, MessageRole, Session, TokenUsage};

fn object(members: Vec<(&str, JsonValue)>) -> JsonValue {
    JsonValue::Object(
        members
            .into_iter()
            .map(|(k, v)| (k.to_string(), v))
            .collect(),
    )
}

fn text(s: &str) -> JsonValue {
    JsonValue::String(s.to_string())
}

fn format_error(value: &JsonValue) -> String {
    match Session::from_json(value) {
        Err(SessionError::Format(m)) => m,
        Err(other) => panic!("unexpected error {other:?}"),
        Ok(s) => panic!("unexpected session {s:?}"),
    }
}

#[test]
fn reasoning_items_survive_session_roundtrip() {
    let mut session = Session::new();
    session.messages.push(ConversationMessage::assistant(vec![
        ContentBlock::Reasoning {
            data: r#"{"id":"rs_abc","content":[]}"#.to_string(),
        },
        ContentBlock::Text {
            text: "result".to_string(),
        },
    ]));

    let json = session.to_json();
    let restored = Session::from_json(&json).expect("session should deserialize");

    assert_eq!(restored, session);
    assert!(matches!(
        &restored.messages[0].blocks[0],
        ContentBlock::Reasoning { data } if data == r#"{"id":"rs_abc","content":[]}"#
    ));
    assert!(matches!(
        &restored.messages[0].blocks[1],
        ContentBlock::Text { text } if text == "result"
    ));
}

#[test]
fn rejects_unsupported_session_version() {
    let value = object(vec![
        ("version", JsonValue::Number(999)),
        ("messages", JsonValue::Array(vec![])),
    ]);
    let error = Session::from_json(&value).expect_err("version should be rejected");

    assert!(error.message().contains("unsupported session version"));
}

#[test]
fn v1_session_loads_with_empty_child_sessions() {
    let json = object(vec![
        ("version", JsonValue::Number(1)),
        ("messages", JsonValue::Array(vec![])),
    ]);
    let session = Session::from_json(&json).expect("v1 session should load");
    assert!(session.child_sessions.is_empty());
}

#[test]
fn v2_session_roundtrips_child_sessions() {
    let mut session = Session::new();
    session
        .messages
        .push(ConversationMessage::user_text("hello"));

    let child = ChildSession {
        id: "child-1".to_string(),
        goal: "scrape titles".to_string(),
        messages: vec![ConversationMessage::user_text("child goal")],
    };
    session.child_sessions.push(child);

    let json = session.to_json();
    let restored = Session::from_json(&json).expect("v2 session should roundtrip");

    assert_eq!(restored, session);
    assert_eq!(restored.child_sessions.len(), 1);
    assert_eq!(restored.child_sessions[0].id, "child-1");
    assert_eq!(restored.child_sessions[0].goal, "scrape titles");
    assert_eq!(restored.child_sessions[0].messages.len(), 1);
}

#[test]
fn full_session_reads_back_unchanged() {
    let mut session = Session::new();
    session.model = Some("model-x".to_string());
    session.title = Some("crawl".to_string());
    session.messages.push(ConversationMessage::user_text("hello"));
    session.messages.push(ConversationMessage::assistant_with_usage(
        vec![
            ContentBlock::Text {
                text: "thinking".to_string(),
            },
            ContentBlock::ToolUse {
                id: "tool-1".to_string(),
                name: "bash".to_string(),
                input: "echo hi".to_string(),
            },
        ],
        Some(TokenUsage {
            input_tokens: 10,
            output_tokens: 4,
            cache_creation_input_tokens: 1,
            cache_read_input_tokens: 2,
        }),
    ));
    session
        .messages
        .push(ConversationMessage::tool_result("tool-1", "bash", "hi", false));

    let restored = Session::from_json(&session.to_json()).expect("session should read back");
    assert_eq!(restored, session);
    assert_eq!(restored.messages[2].role, MessageRole::Tool);
    assert_eq!(restored.messages[1].usage.expect("usage").total_tokens(), 17);
}

#[test]
fn written_session_lists_members_by_key() {
    let mut session = Session::new();
    session.title = Some("t".to_string());
    let json = session.to_json();
    let expected = object(vec![
        ("child_sessions", JsonValue::Array(vec![])),
        ("messages", JsonValue::Array(vec![])),
        ("title", text("t")),
        ("version", JsonValue::Number(2)),
    ]);
    assert_eq!(json, expected);
}

#[test]
fn written_usage_and_blocks_have_their_stored_shape() {
    let mut session = Session::new();
    session.messages.push(ConversationMessage::assistant_with_usage(
        vec![ContentBlock::ToolResult {
            tool_use_id: "a".to_string(),
            tool_name: "b".to_string(),
            output: "c".to_string(),
            is_error: true,
        }],
        Some(TokenUsage {
            input_tokens: 1,
            output_tokens: 2,
            cache_creation_input_tokens: 3,
            cache_read_input_tokens: 4,
        }),
    ));
    let json = session.to_json();
    let message = object(vec![
        (
            "blocks",
            JsonValue::Array(vec![object(vec![
                ("is_error", JsonValue::Bool(true)),
                ("output", text("c")),
                ("tool_name", text("b")),
                ("tool_use_id", text("a")),
                ("type", text("tool_result")),
            ])]),
        ),
        ("role", text("assistant")),
        (
            "usage",
            object(vec![
                ("cache_creation_input_tokens", JsonValue::Number(3)),
                ("cache_read_input_tokens", JsonValue::Number(4)),
                ("input_tokens", JsonValue::Number(1)),
                ("output_tokens", JsonValue::Number(2)),
            ]),
        ),
    ]);
    let expected = object(vec![
        ("child_sessions", JsonValue::Array(vec![])),
        ("messages", JsonValue::Array(vec![message])),
        ("version", JsonValue::Number(2)),
    ]);
    assert_eq!(json, expected);
}

#[test]
fn session_format_errors_name_the_fault() {
    assert_eq!(format_error(&text("x")), "session must be an object");
    assert_eq!(
        format_error(&object(vec![("messages", JsonValue::Array(vec![]))])),
        "missing version"
    );
    assert_eq!(
        format_error(&object(vec![("version", JsonValue::Number(-1))])),
        "version out of range"
    );
    assert_eq!(
        format_error(&object(vec![("version", JsonValue::Number(3))])),
        "unsupported session version 3"
    );
    assert_eq!(
        format_error(&object(vec![("version", JsonValue::Number(2))])),
        "missing messages"
    );
    let bad_role = object(vec![
        ("version", JsonValue::Number(2)),
        (
            "messages",
            JsonValue::Array(vec![object(vec![
                ("role", text("robot")),
                ("blocks", JsonValue::Array(vec![])),
            ])]),
        ),
    ]);
    assert_eq!(format_error(&bad_role), "unsupported message role: robot");
    let bad_block = object(vec![
        ("version", JsonValue::Number(2)),
        (
            "messages",
            JsonValue::Array(vec![object(vec![
                ("role", text("user")),
                ("blocks", JsonValue::Array(vec![object(vec![("type", text("image"))])])),
            ])]),
        ),
    ]);
    assert_eq!(format_error(&bad_block), "unsupported block type: image");
    let big_usage = object(vec![
        ("version", JsonValue::Number(2)),
        (
            "messages",
            JsonValue::Array(vec![object(vec![
                ("role", text("user")),
                ("blocks", JsonValue::Array(vec![])),
                (
                    "usage",
                    object(vec![
                        ("input_tokens", JsonValue::Number(5_000_000_000)),
                        ("output_tokens", JsonValue::Number(0)),
                    ]),
                ),
            ])]),
        ),
    ]);
    assert_eq!(format_error(&big_usage), "input_tokens out of range");
    let bad_child = object(vec![
        ("version", JsonValue::Number(2)),
        ("messages", JsonValue::Array(vec![])),
        ("child_sessions", JsonValue::Array(vec![object(vec![("id", text("c"))])])),
    ]);
    assert_eq!(format_error(&bad_child), "missing goal");
}

#[test]
fn optional_members_of_other_kinds_are_ignored() {
    let json = object(vec![
        ("version", JsonValue::Number(2)),
        ("messages", JsonValue::Array(vec![])),
        ("model", JsonValue::Number(7)),
        ("child_sessions", JsonValue::Null),
    ]);
    let session = Session::from_json(&json).expect("session should load");
    assert_eq!(session.model, None);
    assert!(session.child_sessions.is_empty());
}
