//! Runtime core of an LLM-driven crawling agent: conversation compaction,
//! memory episodes and evidence, settings, and report formatting.
use vstd::prelude::*;

pub mod budget;
pub mod compact;
pub mod config;
pub mod config_ops;
pub mod conversation;
pub mod export;
pub mod markdown;
pub mod mcp;
pub mod memory;
pub mod message;
pub mod observer;
pub mod order;
pub mod paths;
pub mod prompt;
pub mod report;
pub mod script;
pub mod session;
pub mod settings;
pub mod text;
pub mod update_check;
pub mod usage;

pub use compact::key_files::collect_key_files;
pub use compact::summarize::{
    collect_key_urls, collect_recent_role_summaries, extract_url_candidates, first_text_block,
    infer_current_work, infer_pending_work, summarize_block, summarize_messages, truncate_summary,
};
pub use compact::transform::{
    collapse_blank_lines, compacted_summary_prefix_len, extract_existing_compacted_summary,
    extract_summary_highlights, extract_summary_timeline, extract_tag_block,
    is_compact_continuation_message, merge_compact_summaries, prune_tool_outputs, strip_tag_block,
};
pub use compact::{
    compact_session, estimate_session_tokens, format_compact_summary,
    get_compact_continuation_message, should_compact, CompactionConfig, CompactionResult,
};
pub use message::{
    estimate_message_tokens, ChildSession, ContentBlock, ConversationMessage, MessageRole, Session,
    TokenUsage,
};

verus! {
}
