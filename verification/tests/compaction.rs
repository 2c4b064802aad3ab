use acrawl_runtime::{
    collect_key_urls, compact_session, compacted_summary_prefix_len, estimate_session_tokens,
    extract_existing_compacted_summary, format_compact_summary, get_compact_continuation_message,
    infer_pending_work, merge_compact_summaries, prune_tool_outputs, should_compact,
    summarize_block, CompactionConfig, ContentBlock, ConversationMessage, MessageRole, Session,
};

#[test]
fn tests_formats_compact_summary_like_upstream() {
    let summary = "<analysis>scratch</analysis>\n<summary>Kept work</summary>";
    assert_eq!(format_compact_summary(summary), "Summary:\nKept work");
}

#[test]
fn tests_leaves_small_sessions_unchanged() {
    let session = Session {
        version: 1,
        model: None,
        title: None,
        messages: vec![ConversationMessage::user_text("hello")],
        child_sessions: Vec::new(),
    };

    let result = compact_session(&session, CompactionConfig::default());
    assert_eq!(result.removed_message_count, 0);
    assert_eq!(result.compacted_session, session);
    assert!(result.summary.is_empty());
    assert!(result.formatted_summary.is_empty());
}

#[test]
fn tests_compacts_older_messages_into_a_system_summary() {
    let session = Session {
        version: 1,
        model: None,
        title: None,
        messages: vec![
            ConversationMessage::user_text(&"one ".repeat(200)),
            ConversationMessage::assistant(vec![ContentBlock::Text {
                text: "two ".repeat(200),
            }]),
            ConversationMessage::user_text(&"three ".repeat(200)),
            ConversationMessage {
                role: MessageRole::Assistant,
                blocks: vec![ContentBlock::Text {
                    text: "recent".to_string(),
                }],
                usage: None,
            },
        ],
        child_sessions: Vec::new(),
    };

    let result = compact_session(
        &session,
        CompactionConfig {
            preserve_recent_messages: 2,
            max_estimated_tokens: 1,
            ..CompactionConfig::default()
        },
    );

    assert_eq!(result.removed_message_count, 2);
    assert_eq!(result.compacted_session.messages[0].role, MessageRole::System);
    assert!(matches!(
        &result.compacted_session.messages[0].blocks[0],
        ContentBlock::Text { text } if text.contains("Summary:")
    ));
    assert!(result.formatted_summary.contains("Scope:"));
    assert!(result.formatted_summary.contains("Key timeline:"));
    assert!(should_compact(
        &session,
        CompactionConfig {
            preserve_recent_messages: 2,
            max_estimated_tokens: 1,
            ..CompactionConfig::default()
        }
    ));
    assert!(estimate_session_tokens(&result.compacted_session) < estimate_session_tokens(&session));
}

#[test]
fn tests_truncates_long_blocks_in_summary() {
    let summary = summarize_block(&ContentBlock::Text {
        text: "x".repeat(400),
    });
    assert!(summary.ends_with('\u{2026}'));
    assert!(summary.chars().count() <= 161);
}

#[test]
fn extracts_key_urls_from_message_content() {
    let urls = collect_key_urls(&vec![
        ConversationMessage::user_text("First visit https://example.com before checking docs."),
        ConversationMessage::assistant(vec![ContentBlock::Text {
            text: "Then inspect https://docs.example.com/guide and revisit https://example.com."
                .to_string(),
        }]),
    ]);
    assert_eq!(
        urls,
        vec![
            "https://docs.example.com/guide".to_string(),
            "https://example.com".to_string(),
        ]
    );
}

#[test]
fn tests_infers_pending_work_from_recent_messages() {
    let pending = infer_pending_work(&vec![
        ConversationMessage::user_text("done"),
        ConversationMessage::assistant(vec![ContentBlock::Text {
            text: "Next: update tests and follow up on remaining CLI polish.".to_string(),
        }]),
    ]);
    assert_eq!(pending.len(), 1);
    assert!(pending[0].contains("Next: update tests"));
}

#[test]
fn tests_compaction_never_orphans_tool_result() {
    let session = Session {
        version: 1,
        model: None,
        title: None,
        messages: vec![
            ConversationMessage::user_text(&"x ".repeat(200)),
            ConversationMessage::assistant(vec![ContentBlock::ToolUse {
                id: "call_1".to_string(),
                name: "navigate".to_string(),
                input: "{}".to_string(),
            }]),
            ConversationMessage::tool_result("call_1", "navigate", "page content", false),
            ConversationMessage::assistant(vec![ContentBlock::ToolUse {
                id: "call_2".to_string(),
                name: "click".to_string(),
                input: "{}".to_string(),
            }]),
            ConversationMessage::tool_result("call_2", "click", "ok", false),
            ConversationMessage::assistant(vec![ContentBlock::Text {
                text: "done".to_string(),
            }]),
        ],
        child_sessions: Vec::new(),
    };

    let result = compact_session(
        &session,
        CompactionConfig {
            preserve_recent_messages: 3,
            max_estimated_tokens: 1,
            ..CompactionConfig::default()
        },
    );

    let preserved = &result.compacted_session.messages;
    assert_eq!(preserved[0].role, MessageRole::System);

    for message in &preserved[1..] {
        for block in &message.blocks {
            if let ContentBlock::ToolResult { tool_use_id, .. } = block {
                let has_matching_use = preserved.iter().any(|m| {
                    m.blocks.iter().any(|b| {
                        matches!(
                            b,
                            ContentBlock::ToolUse { id, .. } if id == tool_use_id
                        )
                    })
                });
                assert!(has_matching_use, "orphaned tool_result with tool_use_id={tool_use_id}");
            }
        }
    }
}

#[test]
fn tests_compaction_pulls_back_past_tool_boundary() {
    let session = Session {
        version: 1,
        model: None,
        title: None,
        messages: vec![
            ConversationMessage::user_text(&"x ".repeat(200)),
            ConversationMessage::assistant(vec![ContentBlock::ToolUse {
                id: "call_1".to_string(),
                name: "navigate".to_string(),
                input: "{}".to_string(),
            }]),
            ConversationMessage::tool_result("call_1", "navigate", "page", false),
            ConversationMessage::assistant(vec![ContentBlock::Text {
                text: "final".to_string(),
            }]),
        ],
        child_sessions: Vec::new(),
    };

    let result = compact_session(
        &session,
        CompactionConfig {
            preserve_recent_messages: 2,
            max_estimated_tokens: 1,
            ..CompactionConfig::default()
        },
    );

    let preserved = &result.compacted_session.messages;
    assert_ne!(preserved[1].role, MessageRole::Tool, "preserved window must not start with a Tool message");

    let has_tool_use = preserved.iter().any(|m| {
        m.blocks
            .iter()
            .any(|b| matches!(b, ContentBlock::ToolUse { id, .. } if id == "call_1"))
    });
    let has_tool_result = preserved.iter().any(|m| {
        m.blocks.iter().any(|b| {
            matches!(
                b,
                ContentBlock::ToolResult { tool_use_id, .. } if tool_use_id == "call_1"
            )
        })
    });
    assert_eq!(has_tool_use, has_tool_result, "tool_use and tool_result for call_1 must both be present or both absent");
}

#[test]
fn tests_prefix_detection_finds_compacted_summary() {
    let summary = "<summary>Scope: 5 messages compacted.</summary>";
    let continuation = get_compact_continuation_message(summary, true, true);
    let msg = ConversationMessage {
        role: MessageRole::System,
        blocks: vec![ContentBlock::Text { text: continuation }],
        usage: None,
    };
    let result = extract_existing_compacted_summary(&msg);
    assert!(result.is_some());
    assert!(result.unwrap().contains("Scope:"));
}

#[test]
fn tests_prefix_detection_returns_none_for_user_message() {
    let msg = ConversationMessage::user_text("hello");
    assert!(extract_existing_compacted_summary(&msg).is_none());
}

#[test]
fn tests_prefix_detection_returns_none_for_empty_session() {
    let session = Session {
        version: 1,
        model: None,
        title: None,
        messages: vec![],
        child_sessions: Vec::new(),
    };
    assert_eq!(compacted_summary_prefix_len(&session), 0);
}

#[test]
fn tests_prune_tool_outputs_truncates_large_old_outputs() {
    let large_output = "x".repeat(10_000);
    let padding = "p".repeat(4_000);
    let mut messages = vec![
        ConversationMessage::user_text("start"),
        ConversationMessage::assistant(vec![ContentBlock::ToolUse {
            id: "call_1".to_string(),
            name: "navigate".to_string(),
            input: "{}".to_string(),
        }]),
        ConversationMessage::tool_result("call_1", "navigate", &large_output, false),
    ];
    for _ in 0..42 {
        messages.push(ConversationMessage::user_text(&padding));
    }
    messages.push(ConversationMessage::assistant(vec![ContentBlock::Text {
        text: "done".to_string(),
    }]));

    prune_tool_outputs(&mut messages, 40_000, 2_000);

    let block = &messages[2].blocks[0];
    if let ContentBlock::ToolResult { output, .. } = block {
        assert!(output.contains("[\u{2026} output truncated from 10000 chars]"), "large old output should be truncated");
        assert!(output.chars().count() < 10_000, "truncated output should be shorter than original");
    } else {
        panic!("Expected ToolResult block");
    }
}

#[test]
fn tests_prune_tool_outputs_small_outputs_unchanged() {
    let small_output = "small content";
    let mut messages = vec![
        ConversationMessage::user_text("start"),
        ConversationMessage::assistant(vec![ContentBlock::ToolUse {
            id: "call_1".to_string(),
            name: "navigate".to_string(),
            input: "{}".to_string(),
        }]),
        ConversationMessage::tool_result("call_1", "navigate", small_output, false),
    ];

    prune_tool_outputs(&mut messages, 40_000, 2_000);

    let block = &messages[2].blocks[0];
    if let ContentBlock::ToolResult { output, .. } = block {
        assert_eq!(output, small_output);
    } else {
        panic!("Expected ToolResult block");
    }
}

#[test]
fn tests_prune_tool_outputs_recent_outputs_protected() {
    let large_output = "z".repeat(10_000);
    let mut messages: Vec<ConversationMessage> = (0..200)
        .map(|i| {
            if i % 3 == 2 {
                ConversationMessage::tool_result(&format!("call_{i}"), "navigate", &large_output, false)
            } else if i % 3 == 1 {
                ConversationMessage::assistant(vec![ContentBlock::ToolUse {
                    id: format!("call_{i}"),
                    name: "navigate".to_string(),
                    input: "{}".to_string(),
                }])
            } else {
                ConversationMessage::user_text("go")
            }
        })
        .collect();

    prune_tool_outputs(&mut messages, 40_000, 2_000);

    let last_tool_result = messages
        .iter()
        .rev()
        .find(|m| {
            m.blocks
                .iter()
                .any(|b| matches!(b, ContentBlock::ToolResult { .. }))
        })
        .unwrap();

    let block = &last_tool_result.blocks[0];
    if let ContentBlock::ToolResult { output, .. } = block {
        assert!(!output.contains("[\u{2248}?output truncated"), "recent output should not be truncated");
    }
}

#[test]
fn tests_prune_tool_outputs_non_tool_result_blocks_unchanged() {
    let large_text = "a".repeat(10_000);
    let mut messages = vec![
        ConversationMessage::user_text(&large_text),
        ConversationMessage::assistant(vec![ContentBlock::Text {
            text: large_text.clone(),
        }]),
    ];

    prune_tool_outputs(&mut messages, 40_000, 2_000);

    if let ContentBlock::Text { text } = &messages[0].blocks[0] {
        assert_eq!(text.chars().count(), 10_000);
    }
    if let ContentBlock::Text { text } = &messages[1].blocks[0] {
        assert_eq!(text.chars().count(), 10_000);
    }
}

#[test]
fn tests_merge_summaries_first_compaction_returns_unchanged() {
    let summary = "<summary>Conversation summary:\n- Scope: 4 messages.</summary>";
    let result = merge_compact_summaries(None, summary);
    assert_eq!(result, summary);
}

#[test]
fn tests_merge_summaries_second_compaction_contains_both_sections() {
    let first_summary =
        "<summary>Conversation summary:\n- Scope: 4 messages.\n- Current work: task A.</summary>";
    let second_summary =
        "<summary>Conversation summary:\n- Scope: 3 messages.\n- Current work: task B.</summary>";
    let merged = merge_compact_summaries(Some(first_summary), second_summary);
    assert!(merged.contains("Previously compacted context:"), "merged summary must have prior context section");
    assert!(merged.contains("Newly compacted context:"), "merged summary must have new context section");
}

#[test]
fn tests_compact_session_second_compaction_merges_summary() {
    let large_text = "word ".repeat(400);
    let session = Session {
        version: 1,
        model: None,
        title: None,
        messages: vec![
            ConversationMessage::user_text(&large_text),
            ConversationMessage::assistant(vec![ContentBlock::Text {
                text: large_text.clone(),
            }]),
            ConversationMessage::user_text(&large_text),
            ConversationMessage::assistant(vec![ContentBlock::Text {
                text: "done".to_string(),
            }]),
        ],
        child_sessions: Vec::new(),
    };

    let config = CompactionConfig {
        preserve_recent_messages: 2,
        max_estimated_tokens: 1,
        ..CompactionConfig::default()
    };

    let result1 = compact_session(&session, config);
    assert!(result1.removed_message_count > 0);

    let mut session2 = result1.compacted_session.clone();
    session2.messages.push(ConversationMessage::user_text(&large_text));
    session2.messages.push(ConversationMessage::assistant(vec![ContentBlock::Text {
        text: "more work".to_string(),
    }]));

    let result2 = compact_session(&session2, config);
    assert!(result2.removed_message_count > 0);
    let has_previously = result2.formatted_summary.contains("Previously compacted context:");
    let has_newly = result2.formatted_summary.contains("Newly compacted context:");
    assert!(has_previously || has_newly, "second compaction should produce merged summary");
}

#[test]
fn tests_compact_session_with_existing_prefix_does_not_summarize_it() {
    let large_text = "word ".repeat(400);
    let session = Session {
        version: 1,
        model: None,
        title: None,
        messages: vec![
            ConversationMessage::user_text(&large_text),
            ConversationMessage::assistant(vec![ContentBlock::Text {
                text: large_text.clone(),
            }]),
            ConversationMessage::user_text(&large_text),
            ConversationMessage::assistant(vec![ContentBlock::Text {
                text: "done".to_string(),
            }]),
        ],
        child_sessions: Vec::new(),
    };

    let config = CompactionConfig {
        preserve_recent_messages: 2,
        max_estimated_tokens: 1,
        ..CompactionConfig::default()
    };

    let result1 = compact_session(&session, config);
    let mut compacted = result1.compacted_session;
    compacted.messages.push(ConversationMessage::user_text(&large_text));
    compacted.messages.push(ConversationMessage::assistant(vec![ContentBlock::Text {
        text: "more".to_string(),
    }]));

    let result2 = compact_session(&compacted, config);
    let non_prefix_msgs = compacted.messages.len() - 1;
    assert!(result2.removed_message_count < non_prefix_msgs, "some messages should be preserved");
}

#[test]
fn tests_token_budget_tail_preserves_by_budget_not_count() {
    let small = "a ".repeat(200);
    let large = "b ".repeat(1200);
    let session = Session {
        version: 1,
        model: None,
        title: None,
        messages: vec![
            ConversationMessage::user_text(&small),
            ConversationMessage::assistant(vec![ContentBlock::Text { text: small.clone() }]),
            ConversationMessage::user_text(&small),
            ConversationMessage::assistant(vec![ContentBlock::Text { text: large.clone() }]),
            ConversationMessage::user_text(&large),
        ],
        child_sessions: Vec::new(),
    };

    let config = CompactionConfig {
        preserve_recent_messages: 0,
        preserve_recent_messages_floor: 1,
        preserve_recent_tokens: 350,
        max_estimated_tokens: 1,
        ..CompactionConfig::default()
    };

    let result = compact_session(&session, config);
    assert!(result.removed_message_count > 0, "some messages should be summarized");
    let preserved_count = result.compacted_session.messages.len() - 1;
    assert!(preserved_count >= 1, "at least the floor should be preserved");
}

#[test]
fn tests_token_budget_floor_prevents_zero_preservation() {
    let large = "c ".repeat(60_000);
    let session = Session {
        version: 1,
        model: None,
        title: None,
        messages: vec![
            ConversationMessage::user_text(&large),
            ConversationMessage::assistant(vec![ContentBlock::Text { text: large.clone() }]),
            ConversationMessage::user_text(&large),
            ConversationMessage::assistant(vec![ContentBlock::Text { text: large.clone() }]),
            ConversationMessage::user_text(&large),
        ],
        child_sessions: Vec::new(),
    };

    let config = CompactionConfig {
        preserve_recent_messages: 0,
        preserve_recent_messages_floor: 2,
        preserve_recent_tokens: 1,
        max_estimated_tokens: 1,
        ..CompactionConfig::default()
    };

    let result = compact_session(&session, config);
    let preserved_count = result.compacted_session.messages.len() - 1;
    assert!(preserved_count >= 2, "floor of 2 messages must be preserved even with tiny budget, got {preserved_count}");
}

#[test]
fn tests_token_budget_infinite_budget_preserves_all() {
    let text = "word ".repeat(50);
    let session = Session {
        version: 1,
        model: None,
        title: None,
        messages: vec![
            ConversationMessage::user_text(&text),
            ConversationMessage::assistant(vec![ContentBlock::Text { text: text.clone() }]),
            ConversationMessage::user_text(&text),
            ConversationMessage::assistant(vec![ContentBlock::Text { text: text.clone() }]),
        ],
        child_sessions: Vec::new(),
    };

    let config = CompactionConfig {
        preserve_recent_messages: 0,
        preserve_recent_messages_floor: 1,
        preserve_recent_tokens: usize::MAX,
        max_estimated_tokens: 1,
        ..CompactionConfig::default()
    };

    let result = compact_session(&session, config);
    assert_eq!(result.removed_message_count, 0, "infinite budget should preserve all messages (no compaction)");
    assert_eq!(result.compacted_session, session);
}

#[test]
fn tests_backward_compat_preserve_recent_messages_still_works() {
    let text = "word ".repeat(200);
    let session = Session {
        version: 1,
        model: None,
        title: None,
        messages: vec![
            ConversationMessage::user_text(&text),
            ConversationMessage::assistant(vec![ContentBlock::Text { text: text.clone() }]),
            ConversationMessage::user_text(&text),
            ConversationMessage::assistant(vec![ContentBlock::Text {
                text: "recent".to_string(),
            }]),
        ],
        child_sessions: Vec::new(),
    };

    let result = compact_session(
        &session,
        CompactionConfig {
            preserve_recent_messages: 2,
            max_estimated_tokens: 1,
            ..CompactionConfig::default()
        },
    );

    assert_eq!(result.removed_message_count, 2, "should remove 2 old messages");
    assert_eq!(result.compacted_session.messages.len(), 3);
}

#[test]
fn continuation_message_is_recognised_and_user_text_is_not() {
    let text = get_compact_continuation_message("did things", true, false);
    let message = ConversationMessage {
        role: MessageRole::System,
        blocks: vec![ContentBlock::Text { text }],
        usage: None,
    };
    assert!(acrawl_runtime::is_compact_continuation_message(&message));
    assert!(!acrawl_runtime::is_compact_continuation_message(&ConversationMessage::user_text("hello")));
}
