//! Conversation compaction: summarizing old messages and keeping recent ones.
use vstd::prelude::*;

pub mod key_files;
pub mod laws;
pub mod summarize;
pub mod transform;

use crate::message::{
    copy_messages, copy_opt_string, copy_session, estimate_message_tokens, estimate_range_tokens,
    message_tokens, messages_tokens, msgs_view, sat, BlockView, ContentBlock, ConversationMessage,
    MessageRole, MessageView, Session, SessionView,
};
use crate::text::{chars_of, string_of};
use summarize::{summarize_messages, summary_text};
use transform::{
    continuation_text, continuation_vec, existing_summary, extract_existing_compacted_summary_chars,
    format_summary, format_summary_vec, merge_compact_summaries_chars, merged_summary,
    prune_tool_outputs, prune_seq,
};

verus! {

/// Settings of a compaction.
#[derive(Debug, Clone, Copy, PartialEq, Eq, Structural)]
pub struct CompactionConfig {
    /// Minimum number of messages always preserved.
    pub preserve_recent_messages_floor: usize,
    /// Token budget for the preserved tail.
    pub preserve_recent_tokens: usize,
    /// Token threshold that triggers compaction.
    pub max_estimated_tokens: usize,
    /// Legacy floor retained for backward compatibility.
    pub preserve_recent_messages: usize,
    /// Token window protecting recent messages from pruning.
    pub prune_protect_tokens: usize,
    /// Max chars for tool output after truncation.
    pub prune_max_output_chars: usize,
    /// Max chars for the compacted summary.
    pub max_summary_chars: usize,
    /// Whether a model call summarizes instead of the mechanical summary.
    pub llm_summarization: bool,
}

impl Default for CompactionConfig {
    fn default() -> (c: Self)
        ensures
            c.preserve_recent_messages_floor == 2,
            c.preserve_recent_tokens == 80_000,
            c.max_estimated_tokens == 10_000,
            c.preserve_recent_messages == 4,
            c.prune_protect_tokens == 40_000,
            c.prune_max_output_chars == 2_000,
            c.max_summary_chars == 1_200,
            !c.llm_summarization,
    {
        CompactionConfig {
            preserve_recent_messages_floor: 2,
            preserve_recent_tokens: 80_000,
            max_estimated_tokens: 10_000,
            preserve_recent_messages: 4,
            prune_protect_tokens: 40_000,
            prune_max_output_chars: 2_000,
            max_summary_chars: 1_200,
            llm_summarization: false,
        }
    }
}

/// What a compaction produced.
#[derive(Debug, Clone, PartialEq, Eq)]
pub struct CompactionResult {
    pub summary: String,
    pub formatted_summary: String,
    pub compacted_session: Session,
    pub removed_message_count: usize,
}

// ---------------------------------------------------------------------------
// Specifications
// ---------------------------------------------------------------------------

/// 1 when the first message is the summary an earlier compaction left, else 0.
pub open spec fn summary_prefix_len(ms: Seq<MessageView>) -> int {
    if ms.len() > 0 && existing_summary(ms[0]) is Some {
        1
    } else {
        0
    }
}

/// The number of recent messages that a compaction always keeps.
pub open spec fn effective_floor(c: CompactionConfig) -> nat {
    if c.preserve_recent_messages >= c.preserve_recent_messages_floor {
        c.preserve_recent_messages as nat
    } else {
        c.preserve_recent_messages_floor as nat
    }
}

/// Whether a session is due for compaction: more messages than the floor after
/// any earlier summary, and at least `max_estimated_tokens` estimated tokens in them.
pub open spec fn spec_should_compact(ms: Seq<MessageView>, c: CompactionConfig) -> bool {
    let compactable = ms.skip(summary_prefix_len(ms));
    compactable.len() > effective_floor(c) && messages_tokens(compactable)
        >= c.max_estimated_tokens
}

/// Walking back from index `i`, the first index kept by a token budget.
pub open spec fn walk_keep(ms: Seq<MessageView>, cp: int, i: int, budget: nat) -> int
    decreases i,
{
    if i <= cp || i <= 0 || i > ms.len() {
        i
    } else {
        let t = sat(message_tokens(ms[i - 1]));
        if budget >= t {
            walk_keep(ms, cp, i - 1, (budget - t) as nat)
        } else {
            i
        }
    }
}

/// `k` moved back past tool messages, so a kept tail never starts with tool output.
pub open spec fn back_off_tools(ms: Seq<MessageView>, cp: int, k: int) -> int
    decreases k,
{
    if k > cp && cp >= 0 && k < ms.len() && ms[k].role == MessageRole::Tool {
        back_off_tools(ms, cp, k - 1)
    } else {
        k
    }
}

/// The index of the first message a compaction keeps.
pub open spec fn keep_from(w: Seq<MessageView>, cp: int, c: CompactionConfig) -> int {
    let total = w.len() as int;
    let keep = walk_keep(w, cp, total, c.preserve_recent_tokens as nat);
    let floor_keep = if total >= effective_floor(c) {
        total - effective_floor(c)
    } else {
        0
    };
    let legacy = c.preserve_recent_tokens == 80_000 && c.preserve_recent_messages > 0;
    let k0 = if legacy {
        if total >= c.preserve_recent_messages {
            total - c.preserve_recent_messages
        } else {
            0
        }
    } else if keep <= floor_keep {
        keep
    } else {
        floor_keep
    };
    let k1 = if k0 >= cp {
        k0
    } else {
        cp
    };
    back_off_tools(w, cp, k1)
}

/// The system message that opens a compacted session.
pub open spec fn continuation_message(text: Seq<char>) -> MessageView {
    MessageView {
        role: MessageRole::System,
        blocks: seq![BlockView::Text { text }],
        usage: None,
    }
}

/// What compacting session `s` with settings `c` yields:
/// (summary, formatted summary, compacted session, number of removed messages).
pub open spec fn compaction_outcome(s: SessionView, c: CompactionConfig) -> (
    Seq<char>,
    Seq<char>,
    SessionView,
    nat,
) {
    let unchanged = (Seq::<char>::empty(), Seq::<char>::empty(), s, 0nat);
    if !spec_should_compact(s.messages, c) {
        unchanged
    } else {
        let w = prune_seq(s.messages, c.prune_protect_tokens as nat, c.prune_max_output_chars as nat, 0);
        let existing = if w.len() > 0 {
            existing_summary(w[0])
        } else {
            None
        };
        let cp: int = if existing is Some {
            1
        } else {
            0
        };
        let k = keep_from(w, cp, c);
        if k == cp {
            unchanged
        } else {
            let summary = merged_summary(existing, summary_text(w.subrange(cp, k)));
            let preserved = w.skip(k);
            let continuation = continuation_text(summary, true, preserved.len() > 0);
            (
                summary,
                format_summary(summary),
                SessionView {
                    version: s.version,
                    model: s.model,
                    title: s.title,
                    messages: seq![continuation_message(continuation)] + preserved,
                    child_sessions: s.child_sessions,
                },
                (k - cp) as nat,
            )
        }
    }
}

// ---------------------------------------------------------------------------
// Executable functions
// ---------------------------------------------------------------------------

/// Estimated tokens of all messages of a session, saturating at `usize::MAX`.
pub fn estimate_session_tokens(session: &Session) -> (n: usize)
    ensures
        n == sat(messages_tokens(session@.messages)),
{
    let n = estimate_range_tokens(&session.messages, 0, session.messages.len());
    assert(session.messages@.subrange(0, session.messages@.len() as int) == session.messages@);
    n
}

/// 1 when the first message is an earlier compaction's summary, else 0.
fn summary_prefix(ms: &Vec<ConversationMessage>) -> (n: usize)
    ensures
        n == summary_prefix_len(msgs_view(ms@)),
{
    if ms.len() > 0 && extract_existing_compacted_summary_chars(&ms[0]).is_some() {
        1
    } else {
        0
    }
}

/// Whether a session is due for compaction (`should_compact`).
pub fn should_compact(session: &Session, config: CompactionConfig) -> (r: bool)
    ensures
        r == spec_should_compact(session@.messages, config),
{
    let ghost ms = session@.messages;
    let start = summary_prefix(&session.messages);
    let n = session.messages.len();
    let floor = if config.preserve_recent_messages >= config.preserve_recent_messages_floor {
        config.preserve_recent_messages
    } else {
        config.preserve_recent_messages_floor
    };
    let tokens = estimate_range_tokens(&session.messages, start, n);
    assert(msgs_view(session.messages@.subrange(start as int, n as int)) =~= ms.skip(
        start as int,
    ));
    n - start > floor && tokens >= config.max_estimated_tokens
}

/// A summary as it is shown: the analysis block dropped, the summary block
/// introduced by `Summary:`, blank runs collapsed, the whole trimmed.
pub fn format_compact_summary(summary: &str) -> (r: String)
    ensures
        r@ == format_summary(summary@),
{
    let s = chars_of(summary);
    string_of(&format_summary_vec(&s))
}

/// The system message text that replaces compacted messages: the preamble, the
/// formatted summary, then the recent-messages note and the resume instruction
/// when asked for.
pub fn get_compact_continuation_message(
    summary: &str,
    suppress_follow_up_questions: bool,
    recent_messages_preserved: bool,
) -> (r: String)
    ensures
        r@ == continuation_text(summary@, suppress_follow_up_questions, recent_messages_preserved),
{
    let s = chars_of(summary);
    string_of(&continuation_vec(&s, suppress_follow_up_questions, recent_messages_preserved))
}

/// The first index kept by the token budget, walking back from the end.
fn walk_keep_exec(w: &Vec<ConversationMessage>, cp: usize, budget: usize) -> (k: usize)
    requires
        cp <= w.len(),
    ensures
        k == walk_keep(msgs_view(w@), cp as int, w.len() as int, budget as nat),
        cp <= k <= w.len(),
{
    let ghost mv = msgs_view(w@);
    let mut budget_remaining = budget;
    let mut keep = w.len();
    while keep > cp
        invariant
            cp <= keep <= w.len(),
            mv == msgs_view(w@),
            walk_keep(mv, cp as int, w.len() as int, budget as nat) == walk_keep(
                mv,
                cp as int,
                keep as int,
                budget_remaining as nat,
            ),
        decreases keep,
    {
        assert(mv[keep - 1] == w@[keep - 1]@);
        let t = estimate_message_tokens(&w[keep - 1]);
        if budget_remaining >= t {
            budget_remaining = budget_remaining - t;
            keep = keep - 1;
        } else {
            return keep;
        }
    }
    keep
}

/// The index of the first message a compaction keeps.
fn keep_from_exec(w: &Vec<ConversationMessage>, cp: usize, config: CompactionConfig) -> (k: usize)
    requires
        cp <= w.len(),
    ensures
        k == keep_from(msgs_view(w@), cp as int, config),
        cp <= k <= w.len(),
{
    let ghost mv = msgs_view(w@);
    let total = w.len();
    let floor = if config.preserve_recent_messages >= config.preserve_recent_messages_floor {
        config.preserve_recent_messages
    } else {
        config.preserve_recent_messages_floor
    };
    let keep = walk_keep_exec(w, cp, config.preserve_recent_tokens);
    let floor_keep = if total >= floor {
        total - floor
    } else {
        0
    };
    let legacy = config.preserve_recent_tokens == 80_000 && config.preserve_recent_messages > 0;
    let mut k = if legacy {
        if total >= config.preserve_recent_messages {
            total - config.preserve_recent_messages
        } else {
            0
        }
    } else if keep <= floor_keep {
        keep
    } else {
        floor_keep
    };
    if k < cp {
        k = cp;
    }
    while k > cp && k < total && w[k].role == MessageRole::Tool
        invariant
            cp <= k <= total,
            total == w.len(),
            mv == msgs_view(w@),
            back_off_tools(mv, cp as int, k as int) == keep_from(mv, cp as int, config),
        decreases k,
    {
        assert(mv[k as int] == w@[k as int]@);
        k -= 1;
    }
    proof {
        if k > cp && k < total {
            assert(mv[k as int] == w@[k as int]@);
        }
    }
    k
}

/// Compacts a session: prunes old tool output, replaces the messages before the
/// kept tail with one system message that carries their summary (merged with an
/// earlier compaction's summary), and keeps the recent messages verbatim.  A
/// session that is not due, or where nothing would be removed, comes back
/// unchanged with an empty summary.
pub fn compact_session(session: &Session, config: CompactionConfig) -> (r: CompactionResult)
    ensures
        (r.summary@, r.formatted_summary@, r.compacted_session@, r.removed_message_count as nat)
            == compaction_outcome(session@, config),
{
    if !should_compact(session, config) {
        return CompactionResult {
            summary: String::new(),
            formatted_summary: String::new(),
            compacted_session: copy_session(session),
            removed_message_count: 0,
        };
    }
    let mut working = copy_messages(&session.messages, 0, session.messages.len());
    assert(session.messages@.subrange(0, session.messages@.len() as int) == session.messages@);
    prune_tool_outputs(&mut working, config.prune_protect_tokens, config.prune_max_output_chars);
    let ghost w = msgs_view(working@);
    assert(w == prune_seq(
        session@.messages,
        config.prune_protect_tokens as nat,
        config.prune_max_output_chars as nat,
        0,
    ));
    if working.len() > 0 {
        assert(w[0] == working@[0]@);
    }
    let existing = if working.len() > 0 {
        extract_existing_compacted_summary_chars(&working[0])
    } else {
        None
    };
    let cp: usize = if existing.is_some() {
        1
    } else {
        0
    };
    let k = keep_from_exec(&working, cp, config);
    if k == cp {
        return CompactionResult {
            summary: String::new(),
            formatted_summary: String::new(),
            compacted_session: copy_session(session),
            removed_message_count: 0,
        };
    }
    let removed = copy_messages(&working, cp, k);
    let preserved = copy_messages(&working, k, working.len());
    assert(msgs_view(preserved@) =~= w.skip(k as int));
    assert(msgs_view(removed@) =~= w.subrange(cp as int, k as int));
    let raw = summarize_messages(&removed);
    let raw_chars = chars_of(raw.as_str());
    let summary = merge_compact_summaries_chars(&existing, &raw_chars);
    let formatted = format_summary_vec(&summary);
    let continuation = continuation_vec(&summary, true, preserved.len() > 0);
    let mut blocks: Vec<ContentBlock> = Vec::new();
    blocks.push(ContentBlock::Text { text: string_of(&continuation) });
    let first = ConversationMessage { role: MessageRole::System, blocks, usage: None };
    assert(first@.blocks =~= seq![BlockView::Text { text: continuation@ }]);
    let mut messages: Vec<ConversationMessage> = Vec::new();
    messages.push(first);
    let mut rest = preserved;
    messages.append(&mut rest);
    let ghost expected = seq![continuation_message(continuation@)] + w.skip(k as int);
    assert(msgs_view(messages@) =~= expected);
    let mut children: Vec<crate::message::ChildSession> = Vec::new();
    let mut i: usize = 0;
    while i < session.child_sessions.len()
        invariant
            0 <= i <= session.child_sessions.len(),
            children@.len() == i,
            forall|j: int| 0 <= j < i ==> #[trigger] children@[j]@ == session.child_sessions@[j]@,
        decreases session.child_sessions.len() - i,
    {
        children.push(crate::message::copy_child(&session.child_sessions[i]));
        i += 1;
    }
    let compacted = Session {
        version: session.version,
        model: copy_opt_string(&session.model),
        title: copy_opt_string(&session.title),
        messages,
        child_sessions: children,
    };
    assert(crate::message::children_view(compacted.child_sessions@) =~= session@.child_sessions);
    CompactionResult {
        summary: string_of(&summary),
        formatted_summary: string_of(&formatted),
        compacted_session: compacted,
        removed_message_count: k - cp,
    }
}

} // verus!
