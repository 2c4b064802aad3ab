//! What every compaction guarantees: older messages are replaced by one
//! summary message, the most recent ones are kept in order, nothing is lost
//! uncounted, and pruning only shortens tool output.
use vstd::prelude::*;

use super::transform::{
    continuation_text, existing_summary, preamble, prune_block, prune_message, prune_seq,
};
use super::{
    back_off_tools, compaction_outcome, continuation_message, keep_from, walk_keep,
    CompactionConfig,
};
use crate::message::{sat, BlockView, MessageRole, MessageView, SessionView};
use crate::text::{is_ws, starts_with, trim, trim_end};

verus! {

/// Pruning keeps every message and block in place, with its role and usage;
/// text, tool calls and reasoning are left as they are.
pub proof fn lemma_prune_keeps_shape(ms: Seq<MessageView>, protect: nat, max: nat, cum: nat)
    ensures
        prune_seq(ms, protect, max, cum).len() == ms.len(),
        forall|i: int|
            0 <= i < ms.len() ==> {
                let p = #[trigger] prune_seq(ms, protect, max, cum)[i];
                &&& p.role == ms[i].role
                &&& p.usage == ms[i].usage
                &&& p.blocks.len() == ms[i].blocks.len()
                &&& forall|j: int|
                    0 <= j < ms[i].blocks.len() ==> !(ms[i].blocks[j] is ToolResult
                        || ms[i].blocks[j] is ToolResultImage) ==> #[trigger] p.blocks[j]
                        == ms[i].blocks[j]
            },
    decreases ms.len(),
{
    if ms.len() > 0 {
        let m = ms.last();
        let m2 = if cum >= protect {
            prune_message(m, max)
        } else {
            m
        };
        let cum2 = sat(cum + sat(crate::message::message_tokens(m2)));
        lemma_prune_keeps_shape(ms.drop_last(), protect, max, cum2);
        let out = prune_seq(ms, protect, max, cum);
        assert(out == prune_seq(ms.drop_last(), protect, max, cum2).push(m2));
        assert forall|i: int| 0 <= i < ms.len() implies {
            let p = #[trigger] out[i];
            &&& p.role == ms[i].role
            &&& p.usage == ms[i].usage
            &&& p.blocks.len() == ms[i].blocks.len()
            &&& forall|j: int|
                0 <= j < ms[i].blocks.len() ==> !(ms[i].blocks[j] is ToolResult
                    || ms[i].blocks[j] is ToolResultImage) ==> #[trigger] p.blocks[j]
                    == ms[i].blocks[j]
        } by {
            if i < ms.len() - 1 {
                assert(out[i] == prune_seq(ms.drop_last(), protect, max, cum2)[i]);
                assert(ms.drop_last()[i] == ms[i]);
            } else {
                assert(out[i] == m2);
                assert forall|j: int|
                    0 <= j < ms[i].blocks.len() && !(ms[i].blocks[j] is ToolResult
                        || ms[i].blocks[j] is ToolResultImage) implies #[trigger] m2.blocks[j]
                    == ms[i].blocks[j] by {
                    if cum >= protect {
                        assert(m2.blocks[j] == prune_block(m.blocks[j], max));
                    }
                }
            }
        }
    }
}

/// Walking back over the token budget never passes the kept prefix nor the start point.
pub proof fn lemma_walk_keep_range(ms: Seq<MessageView>, cp: int, i: int, budget: nat)
    requires
        0 <= cp <= i <= ms.len(),
    ensures
        cp <= walk_keep(ms, cp, i, budget) <= i,
    decreases i,
{
    if i > cp && i > 0 {
        let t = sat(crate::message::message_tokens(ms[i - 1]));
        if budget >= t {
            lemma_walk_keep_range(ms, cp, i - 1, (budget - t) as nat);
        }
    }
}

/// Backing off tool messages stays between the kept prefix and the start
/// point, and stops on a message that is not tool output (or on the prefix).
pub proof fn lemma_back_off_tools(ms: Seq<MessageView>, cp: int, k: int)
    requires
        0 <= cp <= k,
    ensures
        cp <= back_off_tools(ms, cp, k) <= k,
        back_off_tools(ms, cp, k) > cp && back_off_tools(ms, cp, k) < ms.len() ==> ms[back_off_tools(
            ms,
            cp,
            k,
        )].role != MessageRole::Tool,
    decreases k,
{
    if k > cp && k < ms.len() && ms[k].role == MessageRole::Tool {
        lemma_back_off_tools(ms, cp, k - 1);
    }
}

/// The first kept message lies between the kept prefix and the end.
pub proof fn lemma_keep_from_range(w: Seq<MessageView>, cp: int, c: CompactionConfig)
    requires
        0 <= cp <= w.len(),
    ensures
        cp <= keep_from(w, cp, c) <= w.len(),
        keep_from(w, cp, c) > cp && keep_from(w, cp, c) < w.len() ==> w[keep_from(
            w,
            cp,
            c,
        )].role != MessageRole::Tool,
{
    let total = w.len() as int;
    lemma_walk_keep_range(w, cp, total, c.preserve_recent_tokens as nat);
    let keep = walk_keep(w, cp, total, c.preserve_recent_tokens as nat);
    let floor_keep = if total >= super::effective_floor(c) {
        total - super::effective_floor(c)
    } else {
        0
    };
    let legacy = c.preserve_recent_tokens == 80_000 && c.preserve_recent_messages > 0;
    let k0 = if legacy {
        if total >= c.preserve_recent_messages {
            total - c.preserve_recent_messages
        } else {
            0
        }
    } else if keep <= floor_keep {
        keep
    } else {
        floor_keep
    };
    let k1 = if k0 >= cp {
        k0
    } else {
        cp
    };
    assert(k1 <= total);
    lemma_back_off_tools(w, cp, k1);
}

/// A compaction either leaves the session exactly as it was, or replaces its
/// older messages by one system message that starts with the continuation
/// preamble and keeps the most recent messages, in order and after pruning,
/// behind it. The count of removed messages accounts for every message that is
/// gone (an earlier summary message, when there was one, is merged into the new
/// one), the kept tail never starts with tool output, and the session's other
/// fields stay as they were.
pub proof fn lemma_compaction_outcome(s: SessionView, c: CompactionConfig)
    ensures
        ({
            let (summary, formatted, out, removed) = compaction_outcome(s, c);
            let w = prune_seq(
                s.messages,
                c.prune_protect_tokens as nat,
                c.prune_max_output_chars as nat,
                0,
            );
            let had_summary: int = if w.len() > 0 && existing_summary(w[0]) is Some {
                1
            } else {
                0
            };
            &&& out.version == s.version
            &&& out.model == s.model
            &&& out.title == s.title
            &&& out.child_sessions == s.child_sessions
            &&& removed == 0 ==> out == s && summary.len() == 0 && formatted.len() == 0
            &&& removed > 0 ==> {
                &&& out.messages.len() >= 1
                &&& out.messages[0].role == MessageRole::System
                &&& existing_summary(out.messages[0]) is Some
                &&& out.messages.len() - 1 + removed + had_summary == s.messages.len()
                &&& out.messages.skip(1) == w.skip(w.len() - (out.messages.len() - 1))
                &&& out.messages.len() > 1 ==> out.messages[1].role != MessageRole::Tool
            }
        }),
{
    let (summary, formatted, out, removed) = compaction_outcome(s, c);
    let w = prune_seq(s.messages, c.prune_protect_tokens as nat, c.prune_max_output_chars as nat, 0);
    lemma_prune_keeps_shape(s.messages, c.prune_protect_tokens as nat, c.prune_max_output_chars as nat, 0);
    if super::spec_should_compact(s.messages, c) {
        let existing = if w.len() > 0 {
            existing_summary(w[0])
        } else {
            None
        };
        let cp: int = if existing is Some {
            1
        } else {
            0
        };
        lemma_keep_from_range(w, cp, c);
        let k = keep_from(w, cp, c);
        if k != cp {
            let summary2 = super::transform::merged_summary(existing, super::summarize::summary_text(w.subrange(cp, k)));
            let preserved = w.skip(k);
            let text = super::transform::continuation_text(summary2, true, preserved.len() > 0);
            let msg = continuation_message(text);
            assert(out.messages == seq![msg] + preserved);
            assert(out.messages.skip(1) =~= preserved);
            reveal_strlit(
                "This session is being continued from a previous conversation that ran out of context. The summary below covers the earlier portion of the conversation.\n\n",
            );
            assert(preamble()[0] == 'T');
            assert(text[0] == 'T');
            assert(!crate::text::is_ws('T'));
            assert(crate::text::trim_start(text) == text);
            crate::text::lemma_trim_end_empty(text);
            assert(crate::text::trim(text).len() > 0);
            assert(msg.blocks[0] is Text);
            assert(crate::compact::summarize::first_text(msg.blocks) == Some(text));
            assert(text.take(preamble().len() as int) =~= preamble());
            assert(starts_with(text, preamble()));
            if preserved.len() > 0 {
                assert(out.messages[1] == w[k]);
            }
        }
    }
}

/// Text whose first character is not whitespace keeps something after
/// trailing whitespace is dropped.
proof fn lemma_trim_end_keeps_first(s: Seq<char>)
    requires
        s.len() > 0,
        !is_ws(s[0]),
    ensures
        trim_end(s).len() > 0,
    decreases s.len(),
{
    if is_ws(s.last()) {
        lemma_trim_end_keeps_first(s.drop_last());
    }
}

/// The system message that a compaction leaves is recognised as one, with a
/// summary to read back; a message of any other role never is. Through the
/// contracts of `get_compact_continuation_message` (its text) and
/// `is_compact_continuation_message` (`existing_summary(..) is Some`): every
/// message built from a continuation text is recognised, and no user,
/// assistant or tool message is.
pub proof fn lemma_continuation_recognised(
    summary: Seq<char>,
    suppress: bool,
    preserved: bool,
    other: MessageView,
)
    requires
        other.role != MessageRole::System,
    ensures
        existing_summary(
            MessageView {
                role: MessageRole::System,
                blocks: seq![BlockView::Text { text: continuation_text(summary, suppress, preserved) }],
                usage: None,
            },
        ) is Some,
        existing_summary(other) is None,
{
    let t = continuation_text(summary, suppress, preserved);
    let p = preamble();
    reveal_strlit(
        "This session is being continued from a previous conversation that ran out of context. The summary below covers the earlier portion of the conversation.\n\n",
    );
    assert(p[0] == 'T');
    assert(t.subrange(0, p.len() as int) =~= p);
    assert(t[0] == 'T');
    assert(starts_with(t, p));
    assert(trim(t) == trim_end(t));
    lemma_trim_end_keeps_first(t);
    let bs = seq![BlockView::Text { text: t }];
    assert(bs[0] is Text && trim(bs[0]->text).len() > 0);
}

} // verus!
