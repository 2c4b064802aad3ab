use acrawl_runtime::conversation::{
    apply_llm_summary, assistant_text_from_message, auto_compaction_due, build_assistant_message,
    collect_pending_tool_uses, interrupted_tool_result, removed_message_range, summarizer_request,
    summary_from_reply, wrap_compressed_summary, AssistantEvent, SUMMARY_TEMPLATE,
};
use acrawl_runtime::{
    get_compact_continuation_message, CompactionResult, ContentBlock, ConversationMessage,
    MessageRole, Session, TokenUsage,
};

#[test]
fn reasoning_event_stored_in_message() {
    let events = vec![
        AssistantEvent::Reasoning { data: r#"{"id":"rs_123","content":[]}"#.to_string() },
        AssistantEvent::TextDelta("answer".to_string()),
        AssistantEvent::MessageStop,
    ];
    let (message, _usage) = build_assistant_message(events).expect("build should succeed");
    assert_eq!(message.blocks.len(), 2);
    assert!(matches!(
        &message.blocks[0],
        ContentBlock::Reasoning { data } if data == r#"{"id":"rs_123","content":[]}"#
    ));
    assert!(matches!(&message.blocks[1], ContentBlock::Text { text } if text == "answer"));
}

#[test]
fn text_deltas_merge_and_tool_uses_split_them() {
    let usage = TokenUsage {
        input_tokens: 3,
        output_tokens: 4,
        cache_creation_input_tokens: 0,
        cache_read_input_tokens: 1,
    };
    let events = vec![
        AssistantEvent::TextDelta("Let me ".to_string()),
        AssistantEvent::TextDelta("look.".to_string()),
        AssistantEvent::ToolUse {
            id: "t1".to_string(),
            name: "navigate".to_string(),
            input: "{}".to_string(),
        },
        AssistantEvent::TextDelta(String::new()),
        AssistantEvent::Usage(usage),
        AssistantEvent::TextDelta("Done".to_string()),
        AssistantEvent::MessageStop,
    ];
    let (message, got) = build_assistant_message(events).expect("complete stream");
    assert_eq!(message.role, MessageRole::Assistant);
    assert_eq!(got, Some(usage));
    assert_eq!(message.usage, Some(usage));
    assert_eq!(
        message.blocks,
        vec![
            ContentBlock::Text { text: "Let me look.".to_string() },
            ContentBlock::ToolUse {
                id: "t1".to_string(),
                name: "navigate".to_string(),
                input: "{}".to_string(),
            },
            ContentBlock::Text { text: "Done".to_string() },
        ]
    );
    assert_eq!(assistant_text_from_message(&message), "Let me look.Done");
    assert_eq!(
        collect_pending_tool_uses(&message),
        vec![("t1".to_string(), "navigate".to_string(), "{}".to_string())]
    );
}

#[test]
fn unfinished_or_empty_streams_are_errors() {
    let err = build_assistant_message(vec![AssistantEvent::TextDelta("hi".to_string())])
        .expect_err("no stop");
    assert_eq!(err.message(), "assistant stream ended without a message stop event");
    let err = build_assistant_message(vec![AssistantEvent::MessageStop]).expect_err("no content");
    assert_eq!(err.message(), "assistant stream produced no content");
    let err = build_assistant_message(vec![
        AssistantEvent::TextDelta(String::new()),
        AssistantEvent::MessageStop,
    ])
    .expect_err("empty text is no content");
    assert_eq!(err.message(), "assistant stream produced no content");
}

#[test]
fn interrupted_tool_result_is_an_error_result() {
    let m: ConversationMessage = interrupted_tool_result("t9".to_string(), "click".to_string());
    assert_eq!(m.role, MessageRole::Tool);
    assert_eq!(
        m.blocks,
        vec![ContentBlock::ToolResult {
            tool_use_id: "t9".to_string(),
            tool_name: "click".to_string(),
            output: "Tool execution interrupted by user.".to_string(),
            is_error: true,
        }]
    );
    assert_eq!(collect_pending_tool_uses(&m), Vec::new());
}

fn session_with(messages: Vec<ConversationMessage>) -> Session {
    let mut s = Session::new();
    s.messages = messages;
    s
}

#[test]
fn auto_compaction_is_due_at_the_threshold() {
    assert!(!auto_compaction_due(199_999, 200_000));
    assert!(auto_compaction_due(200_000, 200_000));
    assert!(auto_compaction_due(250_000, 200_000));
}

#[test]
fn removed_range_skips_an_earlier_continuation() {
    let plain = session_with(vec![
        ConversationMessage::user_text("a"),
        ConversationMessage::user_text("b"),
        ConversationMessage::user_text("c"),
    ]);
    assert_eq!(removed_message_range(&plain, 2), (0, 2));
    assert_eq!(removed_message_range(&plain, 5), (0, 3));

    let continuation = get_compact_continuation_message("earlier", true, true);
    let mut first = ConversationMessage::user_text("x");
    first.role = MessageRole::System;
    first.blocks = vec![ContentBlock::Text { text: continuation }];
    let compacted = session_with(vec![
        first,
        ConversationMessage::user_text("b"),
        ConversationMessage::user_text("c"),
    ]);
    assert_eq!(removed_message_range(&compacted, 1), (1, 2));
    assert_eq!(removed_message_range(&compacted, 9), (1, 3));
}

#[test]
fn llm_summary_replaces_the_first_message_text() {
    let mut first = ConversationMessage::user_text("old summary");
    first.role = MessageRole::System;
    let mut result = CompactionResult {
        summary: "s".to_string(),
        formatted_summary: "f".to_string(),
        compacted_session: session_with(vec![first, ConversationMessage::user_text("kept")]),
        removed_message_count: 3,
    };
    apply_llm_summary(&mut result, "model summary");
    let expected = get_compact_continuation_message("model summary", true, true);
    assert_eq!(
        result.compacted_session.messages[0].blocks,
        vec![ContentBlock::Text { text: expected }]
    );
    assert_eq!(result.compacted_session.messages[0].role, MessageRole::System);
    assert_eq!(result.compacted_session.messages[1], ConversationMessage::user_text("kept"));
    assert_eq!(result.removed_message_count, 3);
    assert_eq!(result.summary, "s");
}

#[test]
fn summarizer_request_joins_messages_and_names_the_model() {
    let removed = vec![
        ConversationMessage::user_text("find books"),
        ConversationMessage {
            role: MessageRole::Assistant,
            blocks: vec![
                ContentBlock::Text { text: "ok".to_string() },
                ContentBlock::ToolUse {
                    id: "t1".to_string(),
                    name: "bash".to_string(),
                    input: "ls".to_string(),
                },
            ],
            usage: None,
        },
    ];
    let (hint, content) = summarizer_request(&removed, Some("m-1")).expect("some parts");
    assert_eq!(hint, "You are summarizing a conversation with model m-1.");
    assert_eq!(
        content,
        format!(
            "Conversation to summarize:\n\n[user]: find books\n\n[assistant]: ok | ls\n\n---\n\n{SUMMARY_TEMPLATE}"
        )
    );
    let (hint, _) = summarizer_request(&removed, None).expect("some parts");
    assert_eq!(hint, "You are summarizing a conversation segment.");
    assert_eq!(summarizer_request(&Vec::new(), None), None);
    let huge = vec![ConversationMessage::user_text(&"x".repeat(500_000))];
    assert_eq!(summarizer_request(&huge, None), None);
}

#[test]
fn summary_reply_is_trimmed_text_and_wrapped() {
    let events = vec![
        AssistantEvent::TextDelta("  ## Goal\n".to_string()),
        AssistantEvent::Usage(TokenUsage {
            input_tokens: 1,
            output_tokens: 1,
            cache_creation_input_tokens: 0,
            cache_read_input_tokens: 0,
        }),
        AssistantEvent::TextDelta("crawl  ".to_string()),
        AssistantEvent::MessageStop,
    ];
    assert_eq!(summary_from_reply(&events), Some("## Goal\ncrawl".to_string()));
    assert_eq!(summary_from_reply(&vec![AssistantEvent::TextDelta("  ".to_string())]), None);
    assert_eq!(wrap_compressed_summary("s"), Some("<summary>s</summary>".to_string()));
    assert_eq!(wrap_compressed_summary(""), None);
}
