use acrawl_runtime::export::{default_export_filename, export_file_name, render_export_text};
use acrawl_runtime::usage::{pricing_tier_for_model, PricingTier, UsageTracker};
use acrawl_runtime::{ContentBlock, ConversationMessage, MessageRole, Session, TokenUsage};

fn session_of(messages: Vec<ConversationMessage>) -> Session {
    Session {
        version: 1,
        model: None,
        title: None,
        messages,
        child_sessions: Vec::new(),
    }
}

#[test]
fn export_text_renders_user_and_assistant_messages() {
    let session = session_of(vec![
        ConversationMessage {
            role: MessageRole::User,
            blocks: vec![ContentBlock::Text {
                text: "Hello agent".to_string(),
            }],
            usage: None,
        },
        ConversationMessage {
            role: MessageRole::Assistant,
            blocks: vec![ContentBlock::Text {
                text: "Hello human".to_string(),
            }],
            usage: None,
        },
    ]);
    let exported = render_export_text(&session);
    assert!(exported.contains("# Conversation Export"));
    assert!(exported.contains("## 1. user"));
    assert!(exported.contains("Hello agent"));
    assert!(exported.contains("## 2. assistant"));
    assert!(exported.contains("Hello human"));
}

#[test]
fn export_text_tags_tool_calls_and_results() {
    let session = session_of(vec![
        ConversationMessage::assistant(vec![ContentBlock::ToolUse {
            id: "t1".to_string(),
            name: "navigate".to_string(),
            input: "{}".to_string(),
        }]),
        ConversationMessage::tool_result("t1", "navigate", "ok", true),
    ]);
    assert_eq!(
        render_export_text(&session),
        "# Conversation Export\n\n## 1. assistant\n[tool_use id=t1 name=navigate] {}\n\n## 2. tool\n[tool_result id=t1 name=navigate error=true] ok\n"
    );
}

#[test]
fn default_export_filename_uses_first_user_message() {
    let session = session_of(vec![ConversationMessage {
        role: MessageRole::User,
        blocks: vec![ContentBlock::Text {
            text: "Scrape all books from example.com".to_string(),
        }],
        usage: None,
    }]);
    let filename = default_export_filename(&session);
    assert!(std::path::Path::new(&filename)
        .extension()
        .is_some_and(|ext| ext.eq_ignore_ascii_case("txt")));
    assert!(filename.contains("scrape"));
    assert!(!filename.contains(' '));
    assert_eq!(filename, "scrape-all-books-from-example-com.txt");
}

#[test]
fn default_export_filename_fallback_when_no_user_message() {
    let session = session_of(vec![]);
    assert_eq!(default_export_filename(&session), "conversation.txt");
    let punct = session_of(vec![ConversationMessage::user_text("!!! ???\nsecond line")]);
    assert_eq!(default_export_filename(&punct), "conversation.txt");
    let long = session_of(vec![ConversationMessage::user_text("a b c d e f g h i j")]);
    assert_eq!(default_export_filename(&long), "a-b-c-d-e-f-g-h.txt");
}

#[test]
fn tracks_true_cumulative_usage() {
    let mut tracker = UsageTracker::new();
    tracker.record(TokenUsage {
        input_tokens: 10,
        output_tokens: 4,
        cache_creation_input_tokens: 2,
        cache_read_input_tokens: 1,
    });
    tracker.record(TokenUsage {
        input_tokens: 20,
        output_tokens: 6,
        cache_creation_input_tokens: 3,
        cache_read_input_tokens: 2,
    });

    assert_eq!(tracker.turns(), 2);
    assert_eq!(tracker.current_turn_usage().input_tokens, 20);
    assert_eq!(tracker.current_turn_usage().output_tokens, 6);
    assert_eq!(tracker.cumulative_usage().output_tokens, 10);
    assert_eq!(tracker.cumulative_usage().input_tokens, 30);
    assert_eq!(tracker.cumulative_usage().total_tokens(), 48);
}

#[test]
fn tracker_from_session_adds_recorded_usage() {
    let usage = TokenUsage {
        input_tokens: 5,
        output_tokens: 1,
        cache_creation_input_tokens: 0,
        cache_read_input_tokens: 2,
    };
    let session = session_of(vec![
        ConversationMessage::user_text("hi"),
        ConversationMessage::assistant_with_usage(vec![], Some(usage)),
        ConversationMessage::assistant_with_usage(vec![], Some(usage)),
    ]);
    let tracker = UsageTracker::from_session(&session);
    assert_eq!(tracker.turns(), 2);
    assert_eq!(tracker.cumulative_usage().input_tokens, 10);
    assert_eq!(tracker.cumulative_usage().cache_read_input_tokens, 4);
    assert_eq!(tracker.current_turn_usage(), usage);
}

#[test]
fn pricing_tiers_follow_model_names() {
    assert_eq!(pricing_tier_for_model("model-haiku-4-5-20251001"), Some(PricingTier::Haiku));
    assert_eq!(pricing_tier_for_model("model-opus-4-6"), Some(PricingTier::Opus));
    assert_eq!(pricing_tier_for_model("model-sonnet-4-20250514"), Some(PricingTier::Sonnet));
    assert_eq!(pricing_tier_for_model("Big-OPUS"), Some(PricingTier::Opus));
    assert_eq!(pricing_tier_for_model("haiku-opus"), Some(PricingTier::Haiku));
    assert_eq!(pricing_tier_for_model("custom-model"), None);
    assert_eq!(pricing_tier_for_model(""), None);
}

#[test]
fn export_file_name_adds_txt_unless_present() {
    let session = session_of(vec![ConversationMessage {
        role: MessageRole::User,
        blocks: vec![ContentBlock::Text {
            text: "Scrape all books".to_string(),
        }],
        usage: None,
    }]);
    assert_eq!(export_file_name(Some("notes"), &session), "notes.txt");
    assert_eq!(export_file_name(Some("notes.TXT"), &session), "notes.TXT");
    assert_eq!(export_file_name(Some("notes.md"), &session), "notes.md.txt");
    assert_eq!(
        export_file_name(None, &session),
        default_export_filename(&session)
    );
}
