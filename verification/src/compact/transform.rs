//! Rewriting of summaries and of old tool output during compaction.
use vstd::prelude::*;

use super::summarize::{first_text, first_text_block_chars};
use crate::message::{
    msgs_view, sat, BlockView, ContentBlock, ConversationMessage, MessageRole, MessageView,
};
use crate::text::{
    before_first, before_first_vec, chars_of, dec, find, find_vec, is_blank, join, join_vecs,
    lemma_find_from_some, lines, prefix_all, push_all, push_dec, push_str, replace_all,
    replace_vec, slice_chars, split_lines, starts_with, string_of, trim, trim_end,
    trim_end_len, trim_vec, vviews, matches_at, eq_str,
};

verus! {

// ---------------------------------------------------------------------------
// Fixed texts
// ---------------------------------------------------------------------------

/// The text that opens the system message left by a compaction.
pub open spec fn preamble() -> Seq<char> {
    "This session is being continued from a previous conversation that ran out of context. The summary below covers the earlier portion of the conversation.\n\n"@
}

/// The note added when recent messages were kept.
pub open spec fn recent_note() -> Seq<char> {
    "Recent messages are preserved verbatim."@
}

/// The instruction that asks the model to resume directly.
pub open spec fn resume_instruction() -> Seq<char> {
    "Continue the conversation from where it left off without asking the user any further questions. Resume directly — do not acknowledge the summary, do not recap what was happening, and do not preface with continuation text."@
}

/// See `preamble`.
pub fn preamble_str() -> (s: &'static str)
    ensures
        s@ == preamble(),
{
    "This session is being continued from a previous conversation that ran out of context. The summary below covers the earlier portion of the conversation.\n\n"
}

/// See `recent_note`.
pub fn recent_note_str() -> (s: &'static str)
    ensures
        s@ == recent_note(),
{
    "Recent messages are preserved verbatim."
}

/// See `resume_instruction`.
pub fn resume_instruction_str() -> (s: &'static str)
    ensures
        s@ == resume_instruction(),
{
    "Continue the conversation from where it left off without asking the user any further questions. Resume directly — do not acknowledge the summary, do not recap what was happening, and do not preface with continuation text."
}

// ---------------------------------------------------------------------------
// Specifications
// ---------------------------------------------------------------------------

/// `<tag>`.
pub open spec fn open_tag(tag: Seq<char>) -> Seq<char> {
    "<"@ + tag + ">"@
}

/// `</tag>`.
pub open spec fn close_tag(tag: Seq<char>) -> Seq<char> {
    "</"@ + tag + ">"@
}

/// The text between the first `<tag>` and the first `</tag>` after it.
pub open spec fn extract_tag(content: Seq<char>, tag: Seq<char>) -> Option<Seq<char>> {
    match find(content, open_tag(tag)) {
        None => None,
        Some(a) => {
            let si = a + open_tag(tag).len();
            match find(content.skip(si), close_tag(tag)) {
                None => None,
                Some(b) => Some(content.subrange(si, si + b)),
            }
        },
    }
}

/// `content` without the span from the first `<tag>` to the end of the first `</tag>`.
pub open spec fn strip_tag(content: Seq<char>, tag: Seq<char>) -> Seq<char> {
    match (find(content, open_tag(tag)), find(content, close_tag(tag))) {
        (Some(a), Some(b)) => content.take(a) + content.skip(b + close_tag(tag).len()),
        _ => content,
    }
}

/// Each line followed by a newline, a blank line dropped when the line before was blank.
pub open spec fn collapse_lines(ls: Seq<Seq<char>>, last_blank: bool) -> Seq<char>
    decreases ls.len(),
{
    if ls.len() == 0 {
        seq![]
    } else {
        let blank = trim(ls[0]).len() == 0;
        if blank && last_blank {
            collapse_lines(ls.drop_first(), last_blank)
        } else {
            ls[0] + "\n"@ + collapse_lines(ls.drop_first(), blank)
        }
    }
}

/// `content` with runs of blank lines collapsed to one (`collapse_blank_lines_chars`).
pub open spec fn collapse_blank(content: Seq<char>) -> Seq<char> {
    collapse_lines(lines(content), false)
}

/// A summary as it is shown: the analysis block dropped, the summary block
/// introduced by `Summary:`, blank runs collapsed, the whole trimmed.
pub open spec fn format_summary(summary: Seq<char>) -> Seq<char> {
    let without_analysis = strip_tag(summary, "analysis"@);
    let formatted = match extract_tag(without_analysis, "summary"@) {
        Some(c) => replace_all(
            without_analysis,
            "<summary>"@ + c + "</summary>"@,
            "Summary:\n"@ + trim(c),
        ),
        None => without_analysis,
    };
    trim(collapse_blank(formatted))
}

/// The system message text that replaces compacted messages.
pub open spec fn continuation_text(summary: Seq<char>, suppress: bool, preserved: bool) -> Seq<
    char,
> {
    let base = preamble() + format_summary(summary);
    let with_note = if preserved {
        base + "\n\n"@ + recent_note()
    } else {
        base
    };
    if suppress {
        with_note + "\n"@ + resume_instruction()
    } else {
        with_note
    }
}

/// The summary held by a message that an earlier compaction left, if it is one.
pub open spec fn existing_summary(m: MessageView) -> Option<Seq<char>> {
    if m.role != MessageRole::System {
        None
    } else {
        match first_text(m.blocks) {
            None => None,
            Some(t) => if !starts_with(t, preamble()) {
                None
            } else {
                let s1 = t.skip(preamble().len() as int);
                let s2 = before_first(s1, "\n\n"@ + recent_note());
                let s3 = before_first(s2, "\n"@ + resume_instruction());
                Some(trim(s3))
            },
        }
    }
}

/// Highlight lines: non-empty lines other than the headers, up to the timeline.
pub open spec fn highlights(ls: Seq<Seq<char>>) -> Seq<Seq<char>>
    decreases ls.len(),
{
    if ls.len() == 0 {
        seq![]
    } else {
        let t = trim_end(ls[0]);
        if t.len() == 0 || t == "Summary:"@ || t == "Conversation summary:"@ {
            highlights(ls.drop_first())
        } else if t == "- Key timeline:"@ {
            seq![]
        } else {
            seq![t] + highlights(ls.drop_first())
        }
    }
}

/// Timeline lines: non-empty lines after a `- Key timeline:` line.
pub open spec fn timeline(ls: Seq<Seq<char>>, in_timeline: bool) -> Seq<Seq<char>>
    decreases ls.len(),
{
    if ls.len() == 0 {
        seq![]
    } else {
        let t = trim_end(ls[0]);
        if t == "- Key timeline:"@ {
            timeline(ls.drop_first(), true)
        } else if in_timeline && t.len() > 0 {
            seq![t] + timeline(ls.drop_first(), true)
        } else {
            timeline(ls.drop_first(), in_timeline)
        }
    }
}

/// The highlight lines of a summary.
pub open spec fn summary_highlights(summary: Seq<char>) -> Seq<Seq<char>> {
    highlights(lines(format_summary(summary)))
}

/// The timeline lines of a summary.
pub open spec fn summary_timeline(summary: Seq<char>) -> Seq<Seq<char>> {
    timeline(lines(format_summary(summary)), false)
}

/// The lines of a summary that merges an earlier compaction's summary with a new one.
pub open spec fn merged_lines(existing: Seq<char>, new_summary: Seq<char>) -> Seq<Seq<char>> {
    let previous = summary_highlights(existing);
    let new_formatted = format_summary(new_summary);
    let new_highlights = summary_highlights(new_formatted);
    let new_timeline = summary_timeline(new_formatted);
    let head = seq!["<summary>"@, "Conversation summary:"@];
    let a = if previous.len() > 0 {
        head.push("- Previously compacted context:"@) + prefix_all("  "@, previous)
    } else {
        head
    };
    let b = if new_highlights.len() > 0 {
        a.push("- Newly compacted context:"@) + prefix_all("  "@, new_highlights)
    } else {
        a
    };
    let c = if new_timeline.len() > 0 {
        b.push("- Key timeline:"@) + prefix_all("  "@, new_timeline)
    } else {
        b
    };
    c.push("</summary>"@)
}

/// The summary kept after a compaction: the new summary alone, or merged with
/// the one an earlier compaction left.
pub open spec fn merged_summary(existing: Option<Seq<char>>, new_summary: Seq<char>) -> Seq<char> {
    match existing {
        None => new_summary,
        Some(e) => join(merged_lines(e, new_summary), "\n"@),
    }
}

/// A block as pruning leaves it: long tool output cut to `max` characters with
/// a note, images replaced by their caption.
pub open spec fn prune_block(b: BlockView, max: nat) -> BlockView {
    match b {
        BlockView::ToolResult { tool_use_id, tool_name, output, is_error } => if output.len()
            > max {
            BlockView::ToolResult {
                tool_use_id,
                tool_name,
                output: output.take(max as int) + "\n\n[… output truncated from "@ + dec(
                    output.len(),
                ) + " chars]"@,
                is_error,
            }
        } else {
            b
        },
        BlockView::ToolResultImage { tool_use_id, tool_name, caption, is_error, .. } =>
            BlockView::ToolResult {
            tool_use_id,
            tool_name,
            output: caption + " [image removed by compaction]"@,
            is_error,
        },
        _ => b,
    }
}

/// A message with each block pruned.
pub open spec fn prune_message(m: MessageView, max: nat) -> MessageView {
    MessageView {
        role: m.role,
        blocks: m.blocks.map_values(|b: BlockView| prune_block(b, max)),
        usage: m.usage,
    }
}

/// Messages after pruning, walking from the newest: a message is pruned once
/// the (saturating) token total of the newer messages, as pruned, reaches
/// `protect`.  `cum` is the total of the messages after `ms`.
pub open spec fn prune_seq(ms: Seq<MessageView>, protect: nat, max: nat, cum: nat) -> Seq<
    MessageView,
>
    decreases ms.len(),
{
    if ms.len() == 0 {
        seq![]
    } else {
        let m = ms.last();
        let m2 = if cum >= protect {
            prune_message(m, max)
        } else {
            m
        };
        prune_seq(
            ms.drop_last(),
            protect,
            max,
            sat(cum + sat(crate::message::message_tokens(m2))),
        ).push(m2)
    }
}

// ---------------------------------------------------------------------------
// Executable functions
// ---------------------------------------------------------------------------

/// `<tag>`, or `</tag>` when `close`.
fn tag_text(tag: &Vec<char>, close: bool) -> (r: Vec<char>)
    ensures
        close ==> r@ == close_tag(tag@),
        !close ==> r@ == open_tag(tag@),
{
    let mut r: Vec<char> = Vec::new();
    if close {
        push_str(&mut r, "</");
    } else {
        push_str(&mut r, "<");
    }
    push_all(&mut r, tag);
    push_str(&mut r, ">");
    r
}

/// The text between the first `<tag>` and the first `</tag>` after it (`extract_tag_block_chars`).
pub fn extract_tag_block_chars(content: &Vec<char>, tag: &Vec<char>) -> (r: Option<Vec<char>>)
    ensures
        crate::text::opt_vview(r) == extract_tag(content@, tag@),
{
    let open_t = tag_text(tag, false);
    let close = tag_text(tag, true);
    match find_vec(content, &open_t) {
        None => None,
        Some(a) => {
            proof {
                lemma_find_from_some(content@, open_t@, 0);
            }
            assert(crate::text::match_at(content@, open_t@, a as int));
            let clen = content.len();
            let si = a + open_t.len();
            let rest = slice_chars(content, si, content.len());
            assert(rest@ == content@.skip(si as int));
            match find_vec(&rest, &close) {
                None => None,
                Some(b) => {
                    proof {
                        lemma_find_from_some(rest@, close@, 0);
                    }
                    assert(content@.subrange(si as int, si + b) == rest@.subrange(0, b as int));
                    Some(slice_chars(content, si, si + b))
                },
            }
        },
    }
}

/// `content` without the span from the first `<tag>` to the end of the first
/// `</tag>` (`strip_tag_block_chars`).
pub fn strip_tag_block_chars(content: &Vec<char>, tag: &Vec<char>) -> (r: Vec<char>)
    ensures
        r@ == strip_tag(content@, tag@),
{
    let open_t = tag_text(tag, false);
    let close = tag_text(tag, true);
    let a = find_vec(content, &open_t);
    let b = find_vec(content, &close);
    match (a, b) {
        (Some(a), Some(b)) => {
            proof {
                lemma_find_from_some(content@, open_t@, 0);
                lemma_find_from_some(content@, close@, 0);
            }
            let mut r = slice_chars(content, 0, a);
            let tail = slice_chars(content, b + close.len(), content.len());
            push_all(&mut r, &tail);
            r
        },
        _ => slice_chars(content, 0, content.len()),
    }
}

/// `content` with runs of blank lines collapsed to one (`collapse_blank_lines_chars`).
pub fn collapse_blank_lines_chars(content: &Vec<char>) -> (r: Vec<char>)
    ensures
        r@ == collapse_blank(content@),
{
    let ls = split_lines(content);
    let ghost lv = vviews(ls@);
    let mut out: Vec<char> = Vec::new();
    let mut last_blank = false;
    let mut i: usize = 0;
    assert(lv.skip(0) == lv);
    while i < ls.len()
        invariant
            0 <= i <= ls.len(),
            lv == vviews(ls@),
            collapse_lines(lv, false) == out@ + collapse_lines(lv.skip(i as int), last_blank),
        decreases ls.len() - i,
    {
        let ghost rest = lv.skip(i as int);
        assert(rest[0] == ls@[i as int]@);
        assert(rest.drop_first() == lv.skip(i + 1));
        let blank = is_blank(&ls[i]);
        if blank && last_blank {
        } else {
            let ghost before = out@;
            push_all(&mut out, &ls[i]);
            out.push('\n');
            proof {
                reveal_strlit("\n");
                assert(out@ == before + (ls@[i as int]@ + "\n"@));
                assert(before + (ls@[i as int]@ + "\n"@ + collapse_lines(lv.skip(i + 1), blank))
                    == out@ + collapse_lines(lv.skip(i + 1), blank));
            }
            last_blank = blank;
        }
        i += 1;
    }
    assert(lv.skip(ls.len() as int).len() == 0);
    assert(out@ + Seq::<char>::empty() == out@);
    out
}

/// A summary as it is shown (`format_compact_summary`).
pub fn format_summary_vec(summary: &Vec<char>) -> (r: Vec<char>)
    ensures
        r@ == format_summary(summary@),
{
    let analysis = chars_of("analysis");
    let summary_tag = chars_of("summary");
    let without_analysis = strip_tag_block_chars(summary, &analysis);
    let formatted = match extract_tag_block_chars(&without_analysis, &summary_tag) {
        Some(c) => {
            let mut from = chars_of("<summary>");
            push_all(&mut from, &c);
            push_str(&mut from, "</summary>");
            let mut to = chars_of("Summary:\n");
            let t = trim_vec(&c);
            push_all(&mut to, &t);
            proof {
                reveal_strlit("<summary>");
            }
            replace_vec(&without_analysis, &from, &to)
        },
        None => without_analysis,
    };
    let collapsed = collapse_blank_lines_chars(&formatted);
    trim_vec(&collapsed)
}

/// The system message text that replaces compacted messages.
pub fn continuation_vec(summary: &Vec<char>, suppress: bool, preserved: bool) -> (r: Vec<char>)
    ensures
        r@ == continuation_text(summary@, suppress, preserved),
{
    let mut base = chars_of(preamble_str());
    let f = format_summary_vec(summary);
    push_all(&mut base, &f);
    if preserved {
        push_str(&mut base, "\n\n");
        push_str(&mut base, recent_note_str());
    }
    if suppress {
        push_str(&mut base, "\n");
        push_str(&mut base, resume_instruction_str());
    }
    base
}

/// The summary held by a message that an earlier compaction left
/// (`extract_existing_compacted_summary_chars`).
pub fn extract_existing_compacted_summary_chars(m: &ConversationMessage) -> (r: Option<Vec<char>>)
    ensures
        crate::text::opt_vview(r) == existing_summary(m@),
{
    if m.role != MessageRole::System {
        return None;
    }
    let t = match first_text_block_chars(m) {
        Some(t) => t,
        None => return None,
    };
    let pre = chars_of(preamble_str());
    if !matches_at(&t, &pre, 0) {
        return None;
    }
    let s1 = slice_chars(&t, pre.len(), t.len());
    assert(s1@ == t@.skip(preamble().len() as int));
    let mut note = chars_of("\n\n");
    push_str(&mut note, recent_note_str());
    let s2 = before_first_vec(&s1, &note);
    let mut instr = chars_of("\n");
    push_str(&mut instr, resume_instruction_str());
    let s3 = before_first_vec(&s2, &instr);
    Some(trim_vec(&s3))
}

/// Whether `message` is the system message that a prior compaction left
/// (its text starts with the continuation preamble).
pub fn is_compact_continuation_message(message: &ConversationMessage) -> (r: bool)
    ensures
        r == existing_summary(message@) is Some,
{
    extract_existing_compacted_summary_chars(message).is_some()
}

/// The highlight lines of a summary (`extract_summary_highlights_chars`).
pub fn extract_summary_highlights_chars(summary: &Vec<char>) -> (r: Vec<Vec<char>>)
    ensures
        vviews(r@) == summary_highlights(summary@),
{
    let f = format_summary_vec(summary);
    let ls = split_lines(&f);
    let ghost lv = vviews(ls@);
    let mut out: Vec<Vec<char>> = Vec::new();
    let mut i: usize = 0;
    assert(lv.skip(0) == lv);
    while i < ls.len()
        invariant_except_break
            highlights(lv) == vviews(out@) + highlights(lv.skip(i as int)),
        invariant
            0 <= i <= ls.len(),
            lv == vviews(ls@),
        ensures
            vviews(out@) == highlights(lv),
        decreases ls.len() - i,
    {
        let ghost rest = lv.skip(i as int);
        assert(rest[0] == ls@[i as int]@);
        assert(rest.drop_first() == lv.skip(i + 1));
        let n = trim_end_len(&ls[i], ls[i].len());
        assert(ls@[i as int]@.take(ls@[i as int]@.len() as int) == ls@[i as int]@);
        let t = slice_chars(&ls[i], 0, n);
        if t.len() == 0 || eq_str(&t, "Summary:") || eq_str(&t, "Conversation summary:") {
        } else if eq_str(&t, "- Key timeline:") {
            assert(vviews(out@) + Seq::<Seq<char>>::empty() == vviews(out@));
            break ;
        } else {
            let ghost before = vviews(out@);
            out.push(t);
            assert(vviews(out@) == before.push(t@));
            assert(before + (seq![t@] + highlights(lv.skip(i + 1))) == vviews(out@) + highlights(
                lv.skip(i + 1),
            ));
        }
        i += 1;
    }
    proof {
        if i == ls.len() {
            assert(lv.skip(i as int).len() == 0);
        }
    }
    out
}

/// The timeline lines of a summary (`extract_summary_timeline_chars`).
pub fn extract_summary_timeline_chars(summary: &Vec<char>) -> (r: Vec<Vec<char>>)
    ensures
        vviews(r@) == summary_timeline(summary@),
{
    let f = format_summary_vec(summary);
    let ls = split_lines(&f);
    let ghost lv = vviews(ls@);
    let mut out: Vec<Vec<char>> = Vec::new();
    let mut in_timeline = false;
    let mut i: usize = 0;
    assert(lv.skip(0) == lv);
    while i < ls.len()
        invariant
            0 <= i <= ls.len(),
            lv == vviews(ls@),
            timeline(lv, false) == vviews(out@) + timeline(lv.skip(i as int), in_timeline),
        decreases ls.len() - i,
    {
        let ghost rest = lv.skip(i as int);
        assert(rest[0] == ls@[i as int]@);
        assert(rest.drop_first() == lv.skip(i + 1));
        let n = trim_end_len(&ls[i], ls[i].len());
        assert(ls@[i as int]@.take(ls@[i as int]@.len() as int) == ls@[i as int]@);
        let t = slice_chars(&ls[i], 0, n);
        if eq_str(&t, "- Key timeline:") {
            in_timeline = true;
        } else if in_timeline && t.len() > 0 {
            let ghost before = vviews(out@);
            out.push(t);
            assert(vviews(out@) == before.push(t@));
            assert(before + (seq![t@] + timeline(lv.skip(i + 1), true)) == vviews(out@) + timeline(
                lv.skip(i + 1),
                true,
            ));
        }
        i += 1;
    }
    assert(lv.skip(ls.len() as int).len() == 0);
    assert(vviews(out@) + Seq::<Seq<char>>::empty() == vviews(out@));
    out
}

/// Lines `header` then `"  " + item` for each item, when there are items.
fn push_section(lines: &mut Vec<Vec<char>>, header: &str, items: &Vec<Vec<char>>)
    ensures
        items@.len() > 0 ==> vviews(final(lines)@) == vviews(old(lines)@).push(header@)
            + prefix_all("  "@, vviews(items@)),
        items@.len() == 0 ==> vviews(final(lines)@) == vviews(old(lines)@),
{
    if items.len() > 0 {
        let ghost before = vviews(lines@);
        lines.push(chars_of(header));
        assert(vviews(lines@) =~= before.push(header@));
        super::summarize::push_prefixed(lines, "  ", items);
    }
}

/// The summary kept after a compaction (`merge_compact_summaries_chars`).
pub fn merge_compact_summaries_chars(existing: &Option<Vec<char>>, new_summary: &Vec<char>) -> (r: Vec<
    char,
>)
    ensures
        r@ == merged_summary(crate::text::opt_vview(*existing), new_summary@),
{
    match existing {
        None => slice_chars(new_summary, 0, new_summary.len()),
        Some(e) => {
            let previous = extract_summary_highlights_chars(e);
            let new_formatted = format_summary_vec(new_summary);
            let new_highlights = extract_summary_highlights_chars(&new_formatted);
            let new_timeline = extract_summary_timeline_chars(&new_formatted);
            let mut lines: Vec<Vec<char>> = Vec::new();
            lines.push(chars_of("<summary>"));
            lines.push(chars_of("Conversation summary:"));
            assert(vviews(lines@) =~= seq!["<summary>"@, "Conversation summary:"@]);
            push_section(&mut lines, "- Previously compacted context:", &previous);
            push_section(&mut lines, "- Newly compacted context:", &new_highlights);
            push_section(&mut lines, "- Key timeline:", &new_timeline);
            let ghost before = vviews(lines@);
            lines.push(chars_of("</summary>"));
            assert(vviews(lines@) =~= before.push("</summary>"@));
            assert(vviews(lines@) == merged_lines(e@, new_summary@));
            join_vecs(&lines, "\n")
        },
    }
}

/// A block as pruning leaves it.
fn prune_block_exec(b: ContentBlock, max: usize) -> (r: ContentBlock)
    ensures
        r@ == prune_block(b@, max as nat),
{
    match b {
        ContentBlock::ToolResult { tool_use_id, tool_name, output, is_error } => {
            let chars = chars_of(output.as_str());
            if chars.len() > max {
                let mut text = slice_chars(&chars, 0, max);
                push_str(&mut text, "\n\n[… output truncated from ");
                push_dec(&mut text, chars.len() as u64);
                push_str(&mut text, " chars]");
                ContentBlock::ToolResult { tool_use_id, tool_name, output: string_of(&text), is_error }
            } else {
                ContentBlock::ToolResult { tool_use_id, tool_name, output, is_error }
            }
        },
        ContentBlock::ToolResultImage { tool_use_id, tool_name, caption, is_error, .. } => {
            let mut text = chars_of(caption.as_str());
            push_str(&mut text, " [image removed by compaction]");
            ContentBlock::ToolResult { tool_use_id, tool_name, output: string_of(&text), is_error }
        },
        other => other,
    }
}

/// A message with each block pruned.
fn prune_message_exec(m: &ConversationMessage, max: usize) -> (r: ConversationMessage)
    ensures
        r@ == prune_message(m@, max as nat),
{
    let mut blocks: Vec<ContentBlock> = Vec::new();
    let mut i: usize = 0;
    while i < m.blocks.len()
        invariant
            0 <= i <= m.blocks.len(),
            blocks@.len() == i,
            forall|k: int| 0 <= k < i ==> #[trigger] blocks@[k]@ == prune_block(m.blocks@[k]@, max as nat),
        decreases m.blocks.len() - i,
    {
        let b = crate::message::copy_block(&m.blocks[i]);
        blocks.push(prune_block_exec(b, max));
        i += 1;
    }
    let r = ConversationMessage { role: m.role, blocks, usage: m.usage };
    assert(r@.blocks =~= m@.blocks.map_values(|b: BlockView| prune_block(b, max as nat)));
    r
}

/// Shortens old tool output (`prune_tool_outputs`): walking from the newest
/// message, once the token total of the newer messages reaches
/// `prune_protect_tokens`, tool output longer than `prune_max_output_chars`
/// characters is cut and images are replaced by their caption.
pub fn prune_tool_outputs(
    messages: &mut Vec<ConversationMessage>,
    prune_protect_tokens: usize,
    prune_max_output_chars: usize,
)
    ensures
        msgs_view(final(messages)@) == prune_seq(
            msgs_view(old(messages)@),
            prune_protect_tokens as nat,
            prune_max_output_chars as nat,
            0,
        ),
{
    let ghost orig = msgs_view(messages@);
    let n = messages.len();
    let mut out_rev: Vec<ConversationMessage> = Vec::new();
    let mut cumulative: usize = 0;
    let mut j: usize = n;
    assert(orig.take(n as int) == orig);
    assert(msgs_view(out_rev@).reverse() =~= Seq::<MessageView>::empty());
    while j > 0
        invariant
            j <= n,
            n == orig.len(),
            messages@.len() == n,
            msgs_view(messages@) == orig,
            prune_seq(orig, prune_protect_tokens as nat, prune_max_output_chars as nat, 0)
                == prune_seq(
                orig.take(j as int),
                prune_protect_tokens as nat,
                prune_max_output_chars as nat,
                cumulative as nat,
            ) + msgs_view(out_rev@).reverse(),
        decreases j,
    {
        assert(orig.take(j as int).drop_last() == orig.take(j - 1));
        assert(orig.take(j as int).last() == messages@[j - 1]@);
        let m2 = if cumulative >= prune_protect_tokens {
            prune_message_exec(&messages[j - 1], prune_max_output_chars)
        } else {
            crate::message::copy_message(&messages[j - 1])
        };
        let t = crate::message::estimate_message_tokens(&m2);
        let ghost before = msgs_view(out_rev@);
        let ghost m2v = m2@;
        let ghost old_cum = cumulative;
        cumulative = crate::message::sat_add(cumulative, t);
        out_rev.push(m2);
        assert(msgs_view(out_rev@) =~= before.push(m2v));
        assert(msgs_view(out_rev@).reverse() =~= seq![m2v] + before.reverse());
        let ghost pre = prune_seq(
            orig.take(j - 1),
            prune_protect_tokens as nat,
            prune_max_output_chars as nat,
            cumulative as nat,
        );
        assert(pre.push(m2v) + before.reverse() == pre + (seq![m2v] + before.reverse()));
        j -= 1;
    }
    assert(orig.take(0) == Seq::<MessageView>::empty());
    let mut result: Vec<ConversationMessage> = Vec::new();
    let ghost rv = msgs_view(out_rev@).reverse();
    while out_rev.len() > 0
        invariant
            rv.len() == out_rev@.len() + result@.len(),
            forall|k: int| 0 <= k < result@.len() ==> #[trigger] result@[k]@ == rv[k],
            forall|k: int| 0 <= k < out_rev@.len() ==> #[trigger] out_rev@[k]@ == rv[rv.len() - 1 - k],
        decreases out_rev.len(),
    {
        let x = out_rev.pop().unwrap();
        result.push(x);
    }
    assert(msgs_view(result@) =~= rv);
    *messages = result;
}

// ---------------------------------------------------------------------------
// String-typed entry points
// ---------------------------------------------------------------------------

/// The text between the first `<tag>` and the first `</tag>` after it.
pub fn extract_tag_block(content: &str, tag: &str) -> (r: Option<String>)
    ensures
        crate::message::opt_view(r) == extract_tag(content@, tag@),
{
    match extract_tag_block_chars(&chars_of(content), &chars_of(tag)) {
        Some(t) => Some(string_of(&t)),
        None => None,
    }
}

/// `content` without the span from the first `<tag>` to the end of the first `</tag>`.
pub fn strip_tag_block(content: &str, tag: &str) -> (r: String)
    ensures
        r@ == strip_tag(content@, tag@),
{
    string_of(&strip_tag_block_chars(&chars_of(content), &chars_of(tag)))
}

/// Each line of `content` followed by a newline, runs of blank lines collapsed to one.
pub fn collapse_blank_lines(content: &str) -> (r: String)
    ensures
        r@ == collapse_blank(content@),
{
    string_of(&collapse_blank_lines_chars(&chars_of(content)))
}

/// The summary held by a message that an earlier compaction left: the text
/// after the preamble, up to the recent-messages note or the resume
/// instruction, trimmed.  `None` for any other message.
pub fn extract_existing_compacted_summary(message: &ConversationMessage) -> (r: Option<String>)
    ensures
        crate::message::opt_view(r) == existing_summary(message@),
{
    match extract_existing_compacted_summary_chars(message) {
        Some(t) => Some(string_of(&t)),
        None => None,
    }
}

/// 1 when the session opens with an earlier compaction's summary, else 0.
pub fn compacted_summary_prefix_len(session: &crate::message::Session) -> (n: usize)
    ensures
        n == (if session@.messages.len() > 0 && existing_summary(session@.messages[0]) is Some {
            1int
        } else {
            0int
        }),
{
    if session.messages.len() > 0 && extract_existing_compacted_summary_chars(
        &session.messages[0],
    ).is_some() {
        1
    } else {
        0
    }
}

/// The highlight lines of a summary: its non-empty lines other than the
/// headers, up to the timeline.
pub fn extract_summary_highlights(summary: &str) -> (r: Vec<String>)
    ensures
        crate::text::views(r@) == summary_highlights(summary@),
{
    crate::text::strings_all(&extract_summary_highlights_chars(&chars_of(summary)))
}

/// The timeline lines of a summary.
pub fn extract_summary_timeline(summary: &str) -> (r: Vec<String>)
    ensures
        crate::text::views(r@) == summary_timeline(summary@),
{
    crate::text::strings_all(&extract_summary_timeline_chars(&chars_of(summary)))
}

/// The new summary alone, or merged with the one an earlier compaction left.
pub fn merge_compact_summaries(existing_summary: Option<&str>, new_summary: &str) -> (r: String)
    ensures
        r@ == merged_summary(
            match existing_summary {
                Some(e) => Some(e@),
                None => None,
            },
            new_summary@,
        ),
{
    let existing = match existing_summary {
        Some(e) => Some(chars_of(e)),
        None => None,
    };
    string_of(&merge_compact_summaries_chars(&existing, &chars_of(new_summary)))
}

} // verus!
