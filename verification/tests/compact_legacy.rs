#![allow(unused_imports)]
use acrawl_runtime::{
    collect_key_urls, compact_session, compacted_summary_prefix_len, estimate_session_tokens,
    extract_existing_compacted_summary, format_compact_summary, get_compact_continuation_message,
    infer_pending_work, merge_compact_summaries, prune_tool_outputs, should_compact,
    summarize_block, CompactionConfig, ContentBlock, ConversationMessage, MessageRole, Session,
};

#[test]
fn compact_formats_compact_summary_like_upstream() {
    let summary = "<analysis>scratch</analysis>\n<summary>Kept work</summary>";
    assert_eq!(format_compact_summary(summary), "Summary:\nKept work");
}

#[test]
fn compact_truncates_long_blocks_in_summary() {
    let summary = summarize_block(&ContentBlock::Text {
        text: "x".repeat(400),
    });
    assert!(summary.ends_with('\u{2026}'));
    assert!(summary.chars().count() <= 161);
}

#[test]
fn compact_infers_pending_work_from_recent_messages() {
    let pending = infer_pending_work(&vec![
        ConversationMessage::user_text("done"),
        ConversationMessage::assistant(vec![ContentBlock::Text {
            text: "Next: update tests and follow up on remaining CLI polish.".to_string(),
        }]),
    ]);
    assert_eq!(pending.len(), 1);
    assert!(pending[0].contains("Next: update tests"));
}

#[test]
fn compact_prefix_detection_finds_compacted_summary() {
    let summary = "<summary>Scope: 5 messages compacted.</summary>";
    let continuation = get_compact_continuation_message(summary, true, true);
    let msg = ConversationMessage {
        role: MessageRole::System,
        blocks: vec![ContentBlock::Text { text: continuation }],
        usage: None,
    };
    let result = extract_existing_compacted_summary(&msg);
    assert!(result.is_some());
    assert!(result.unwrap().contains("Scope:"));
}

#[test]
fn compact_prefix_detection_returns_none_for_user_message() {
    let msg = ConversationMessage::user_text("hello");
    assert!(extract_existing_compacted_summary(&msg).is_none());
}

#[test]
fn compact_prune_tool_outputs_small_outputs_unchanged() {
    let small_output = "small content";
    let mut messages = vec![
        ConversationMessage::user_text("start"),
        ConversationMessage::assistant(vec![ContentBlock::ToolUse {
            id: "call_1".to_string(),
            name: "navigate".to_string(),
            input: "{}".to_string(),
        }]),
        ConversationMessage::tool_result("call_1", "navigate", small_output, false),
    ];

    prune_tool_outputs(&mut messages, 40_000, 2_000);

    let block = &messages[2].blocks[0];
    if let ContentBlock::ToolResult { output, .. } = block {
        assert_eq!(output, small_output);
    } else {
        panic!("Expected ToolResult block");
    }
}

#[test]
fn compact_prune_tool_outputs_recent_outputs_protected() {
    let large_output = "z".repeat(10_000);
    let mut messages: Vec<ConversationMessage> = (0..200)
        .map(|i| {
            if i % 3 == 2 {
                ConversationMessage::tool_result(&format!("call_{i}"), "navigate", &large_output, false)
            } else if i % 3 == 1 {
                ConversationMessage::assistant(vec![ContentBlock::ToolUse {
                    id: format!("call_{i}"),
                    name: "navigate".to_string(),
                    input: "{}".to_string(),
                }])
            } else {
                ConversationMessage::user_text("go")
            }
        })
        .collect();

    prune_tool_outputs(&mut messages, 40_000, 2_000);

    let last_tool_result = messages
        .iter()
        .rev()
        .find(|m| {
            m.blocks
                .iter()
                .any(|b| matches!(b, ContentBlock::ToolResult { .. }))
        })
        .unwrap();

    let block = &last_tool_result.blocks[0];
    if let ContentBlock::ToolResult { output, .. } = block {
        assert!(!output.contains("[\u{2248}?output truncated"), "recent output should not be truncated");
    }
}

#[test]
fn compact_prune_tool_outputs_non_tool_result_blocks_unchanged() {
    let large_text = "a".repeat(10_000);
    let mut messages = vec![
        ConversationMessage::user_text(&large_text),
        ConversationMessage::assistant(vec![ContentBlock::Text {
            text: large_text.clone(),
        }]),
    ];

    prune_tool_outputs(&mut messages, 40_000, 2_000);

    if let ContentBlock::Text { text } = &messages[0].blocks[0] {
        assert_eq!(text.chars().count(), 10_000);
    }
    if let ContentBlock::Text { text } = &messages[1].blocks[0] {
        assert_eq!(text.chars().count(), 10_000);
    }
}

#[test]
fn compact_merge_summaries_first_compaction_returns_unchanged() {
    let summary = "<summary>Conversation summary:\n- Scope: 4 messages.</summary>";
    let result = merge_compact_summaries(None, summary);
    assert_eq!(result, summary);
}

#[test]
fn compact_merge_summaries_second_compaction_contains_both_sections() {
    let first_summary =
        "<summary>Conversation summary:\n- Scope: 4 messages.\n- Current work: task A.</summary>";
    let second_summary =
        "<summary>Conversation summary:\n- Scope: 3 messages.\n- Current work: task B.</summary>";
    let merged = merge_compact_summaries(Some(first_summary), second_summary);
    assert!(merged.contains("Previously compacted context:"), "merged summary must have prior context section");
    assert!(merged.contains("Newly compacted context:"), "merged summary must have new context section");
}

#[test]
fn extracts_key_files_from_message_content() {
    let files = acrawl_runtime::collect_key_files(&vec![ConversationMessage::user_text(
        "Update rust/crates/runtime/src/compact.rs and rust/crates/rusty-cli/src/main.rs next.",
    )]);
    assert!(files.contains(&"rust/crates/runtime/src/compact.rs".to_string()));
    assert!(files.contains(&"rust/crates/rusty-cli/src/main.rs".to_string()));
}

#[test]
fn key_files_are_sorted_unique_and_limited() {
    let text = "(z/a.md) y/b.RS, x/c.txt a/d.json a/d.json noslash.rs p/1.ts p/2.ts p/3.ts p/4.ts p/5.ts";
    let files = acrawl_runtime::collect_key_files(&vec![ConversationMessage::user_text(text)]);
    assert_eq!(
        files,
        vec!["a/d.json", "p/1.ts", "p/2.ts", "p/3.ts", "p/4.ts", "p/5.ts", "y/b.RS", "z/a.md"]
    );
}
