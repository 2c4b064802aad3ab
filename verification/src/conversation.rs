//! One conversation turn: assembling the assistant's streamed reply, the
//! tool uses it asks for, what the turn reports, and the automatic
//! compaction threshold.
use vstd::prelude::*;

use crate::compact::transform::{
    continuation_text, existing_summary, is_compact_continuation_message,
};
use crate::compact::{get_compact_continuation_message, CompactionResult};
use crate::message::{
    blocks_view, copy_string, msgs_view, BlockView, ContentBlock, ConversationMessage, MessageRole,
    MessageView, Session, TokenUsage,
};
use crate::settings::{or_default, settings_get_auto_compact_tokens, Settings};
use crate::compact::summarize::role_name;
use crate::text::{
    chars_of, join, parse_u32, parse_u32_vec, push_str, string_of, trim, trim_vec, utf8_len, vviews,
};

verus! {

/// Input tokens at which a session is compacted when nothing else is set.
pub const DEFAULT_AUTO_COMPACTION_INPUT_TOKENS_THRESHOLD: u32 = 200_000;

/// What one turn of the conversation produced.
#[derive(Debug, Clone, PartialEq, Eq)]
pub struct TurnSummary {
    pub assistant_messages: Vec<ConversationMessage>,
    pub tool_results: Vec<ConversationMessage>,
    pub iterations: usize,
    pub usage: TokenUsage,
    pub auto_compaction: Option<AutoCompactionEvent>,
}

/// An automatic compaction that happened during a turn.
#[derive(Debug, Clone, Copy, PartialEq, Eq)]
pub struct AutoCompactionEvent {
    pub removed_message_count: usize,
}

/// The compaction threshold from settings, capped at `u32::MAX`.
pub open spec fn threshold_from_settings(s: Settings) -> u32 {
    let t = or_default(s.auto_compact_input_tokens, 200_000u64);
    if t <= u32::MAX {
        t as u32
    } else {
        u32::MAX
    }
}

/// The threshold a raw value gives: a positive `u32` after trimming, otherwise
/// the default.
pub open spec fn threshold_from_text(value: Option<Seq<char>>) -> u32 {
    match value {
        Some(raw) => match parse_u32(trim(raw)) {
            Some(t) => if t > 0 {
                t
            } else {
                DEFAULT_AUTO_COMPACTION_INPUT_TOKENS_THRESHOLD
            },
            None => DEFAULT_AUTO_COMPACTION_INPUT_TOKENS_THRESHOLD,
        },
        None => DEFAULT_AUTO_COMPACTION_INPUT_TOKENS_THRESHOLD,
    }
}

/// The automatic compaction threshold configured in `settings` (which the
/// caller loads from `settings.json`), capped at `u32::MAX`.
pub fn auto_compaction_threshold_from_env(settings: &Settings) -> (r: u32)
    ensures
        r == threshold_from_settings(*settings),
{
    let tokens = settings_get_auto_compact_tokens(settings);
    if tokens <= 0xffff_ffff {
        tokens as u32
    } else {
        0xffff_ffff
    }
}

/// Parses a threshold: a positive decimal `u32`, surrounding whitespace
/// ignored; anything else gives the default.
pub fn parse_auto_compaction_threshold(value: Option<&str>) -> (r: u32)
    ensures
        r == threshold_from_text(
            match value {
                Some(v) => Some(v@),
                None => None,
            },
        ),
{
    match value {
        Some(raw) => {
            let cs = chars_of(raw);
            let t = trim_vec(&cs);
            match parse_u32_vec(&t) {
                Some(n) => if n > 0 {
                    n
                } else {
                    DEFAULT_AUTO_COMPACTION_INPUT_TOKENS_THRESHOLD
                },
                None => DEFAULT_AUTO_COMPACTION_INPUT_TOKENS_THRESHOLD,
            }
        },
        None => DEFAULT_AUTO_COMPACTION_INPUT_TOKENS_THRESHOLD,
    }
}

/// One event of a streamed assistant reply.
#[derive(Debug, Clone, PartialEq, Eq)]
pub enum AssistantEvent {
    TextDelta(String),
    ToolUse { id: String, name: String, input: String },
    Reasoning { data: String },
    Usage(TokenUsage),
    MessageStop,
}

/// Why a turn could not go on.
#[derive(Debug, Clone, PartialEq, Eq)]
pub struct RuntimeError {
    message: String,
}

impl RuntimeError {
    /// The error's message.
    pub closed spec fn text(&self) -> Seq<char> {
        self.message@
    }

    /// An error with `message`.
    pub fn new(message: &str) -> (e: Self)
        ensures
            e.text() == message@,
    {
        RuntimeError { message: string_of(&chars_of(message)) }
    }

    /// The error's message.
    pub fn message(&self) -> (r: String)
        ensures
            r@ == self.text(),
    {
        copy_string(&self.message)
    }
}

/// A reply being assembled: text not yet closed into a block, the blocks so
/// far, whether the stream has stopped, and the usage reported.
#[verifier::ext_equal]
pub struct Assembly {
    pub text: Seq<char>,
    pub blocks: Seq<BlockView>,
    pub finished: bool,
    pub usage: Option<TokenUsage>,
}

/// Nothing assembled yet.
pub open spec fn empty_assembly() -> Assembly {
    Assembly { text: seq![], blocks: seq![], finished: false, usage: None }
}

/// The pending text closed into a text block, if there is any.
pub open spec fn text_flushed(a: Assembly) -> Assembly {
    if a.text.len() > 0 {
        Assembly { blocks: a.blocks.push(BlockView::Text { text: a.text }), text: seq![], ..a }
    } else {
        a
    }
}

/// The reply after event `e`: text deltas are gathered, a tool use or
/// reasoning closes the pending text and follows it, the last usage counts,
/// and a stop marks the reply finished.
pub open spec fn assembly_step(a: Assembly, e: AssistantEvent) -> Assembly {
    match e {
        AssistantEvent::TextDelta(d) => Assembly { text: a.text + d@, ..a },
        AssistantEvent::ToolUse { id, name, input } => {
            let f = text_flushed(a);
            Assembly {
                blocks: f.blocks.push(BlockView::ToolUse { id: id@, name: name@, input: input@ }),
                ..f
            }
        },
        AssistantEvent::Reasoning { data } => {
            let f = text_flushed(a);
            Assembly { blocks: f.blocks.push(BlockView::Reasoning { data: data@ }), ..f }
        },
        AssistantEvent::Usage(u) => Assembly { usage: Some(u), ..a },
        AssistantEvent::MessageStop => Assembly { finished: true, ..a },
    }
}

/// The reply after the events, in order.
pub open spec fn assembly_of(es: Seq<AssistantEvent>) -> Assembly
    decreases es.len(),
{
    if es.len() == 0 {
        empty_assembly()
    } else {
        assembly_step(assembly_of(es.drop_last()), es.last())
    }
}

/// The reply once the stream is over: the pending text closed.
pub open spec fn assembled(es: Seq<AssistantEvent>) -> Assembly {
    text_flushed(assembly_of(es))
}

/// Closes the pending text into a text block, if there is any.
fn flush_text_block(text: &mut Vec<char>, blocks: &mut Vec<ContentBlock>)
    ensures
        final(text)@ == Seq::<char>::empty(),
        blocks_view(final(blocks)@) == (if old(text)@.len() > 0 {
            blocks_view(old(blocks)@).push(BlockView::Text { text: old(text)@ })
        } else {
            blocks_view(old(blocks)@)
        }),
{
    if text.len() > 0 {
        let ghost b0 = blocks@;
        let t = string_of(text);
        blocks.push(ContentBlock::Text { text: t });
        assert(blocks_view(blocks@) =~= blocks_view(b0).push(BlockView::Text { text: old(text)@ }));
        *text = Vec::new();
    } else {
        assert(text@ =~= Seq::<char>::empty());
    }
}

/// The assistant's reply assembled from its streamed events. A stream that
/// never stopped, or that carried no content, is an error.
pub fn build_assistant_message(events: Vec<AssistantEvent>) -> (r: Result<
    (ConversationMessage, Option<TokenUsage>),
    RuntimeError,
>)
    ensures
        ({
            let a = assembled(events@);
            if !a.finished {
                r is Err && r->Err_0.text() == "assistant stream ended without a message stop event"@
            } else if a.blocks.len() == 0 {
                r is Err && r->Err_0.text() == "assistant stream produced no content"@
            } else {
                r is Ok && r->Ok_0.0.role == MessageRole::Assistant && r->Ok_0.0@.blocks == a.blocks
                    && r->Ok_0.0.usage == a.usage && r->Ok_0.1 == a.usage
            }
        }),
{
    let mut text: Vec<char> = Vec::new();
    let mut blocks: Vec<ContentBlock> = Vec::new();
    let mut finished = false;
    let mut usage: Option<TokenUsage> = None;
    let mut i: usize = 0;
    while i < events.len()
        invariant
            0 <= i <= events.len(),
            (Assembly { text: text@, blocks: blocks_view(blocks@), finished, usage }) == assembly_of(
                events@.take(i as int),
            ),
        decreases events.len() - i,
    {
        let ghost a0 = Assembly { text: text@, blocks: blocks_view(blocks@), finished, usage };
        assert(events@.take(i + 1).drop_last() =~= events@.take(i as int));
        match &events[i] {
            AssistantEvent::TextDelta(delta) => {
                push_str(&mut text, delta.as_str());
            },
            AssistantEvent::ToolUse { id, name, input } => {
                flush_text_block(&mut text, &mut blocks);
                let ghost b1 = blocks@;
                blocks.push(
                    ContentBlock::ToolUse {
                        id: copy_string(id),
                        name: copy_string(name),
                        input: copy_string(input),
                    },
                );
                assert(blocks_view(blocks@) =~= blocks_view(b1).push(
                    BlockView::ToolUse { id: id@, name: name@, input: input@ },
                ));
            },
            AssistantEvent::Reasoning { data } => {
                flush_text_block(&mut text, &mut blocks);
                let ghost b1 = blocks@;
                blocks.push(ContentBlock::Reasoning { data: copy_string(data) });
                assert(blocks_view(blocks@) =~= blocks_view(b1).push(
                    BlockView::Reasoning { data: data@ },
                ));
            },
            AssistantEvent::Usage(value) => {
                usage = Some(*value);
            },
            AssistantEvent::MessageStop => {
                finished = true;
            },
        }
        assert((Assembly { text: text@, blocks: blocks_view(blocks@), finished, usage })
            =~= assembly_step(a0, events@[i as int]));
        i += 1;
    }
    assert(events@.take(events.len() as int) =~= events@);
    flush_text_block(&mut text, &mut blocks);
    if !finished {
        return Err(RuntimeError::new("assistant stream ended without a message stop event"));
    }
    if blocks.len() == 0 {
        return Err(RuntimeError::new("assistant stream produced no content"));
    }
    Ok((ConversationMessage::assistant_with_usage(blocks, usage), usage))
}

/// The text of the message's text blocks, run together.
pub open spec fn text_of_blocks(bs: Seq<BlockView>) -> Seq<char>
    decreases bs.len(),
{
    if bs.len() == 0 {
        seq![]
    } else {
        text_of_blocks(bs.drop_last()) + match bs.last() {
            BlockView::Text { text } => text,
            _ => seq![],
        }
    }
}

/// The text an assistant message says, its text blocks run together.
pub fn assistant_text_from_message(message: &ConversationMessage) -> (r: String)
    ensures
        r@ == text_of_blocks(message@.blocks),
{
    let ghost bv = message@.blocks;
    let mut out: Vec<char> = Vec::new();
    let mut i: usize = 0;
    while i < message.blocks.len()
        invariant
            0 <= i <= message.blocks.len(),
            bv == blocks_view(message.blocks@),
            out@ == text_of_blocks(bv.take(i as int)),
        decreases message.blocks.len() - i,
    {
        assert(bv.take(i + 1).drop_last() =~= bv.take(i as int));
        assert(bv[i as int] == message.blocks@[i as int]@);
        match &message.blocks[i] {
            ContentBlock::Text { text } => push_str(&mut out, text.as_str()),
            _ => {},
        }
        assert(out@ =~= text_of_blocks(bv.take(i + 1)));
        i += 1;
    }
    assert(bv.take(message.blocks.len() as int) =~= bv);
    string_of(&out)
}

/// The tool uses among the blocks, as (id, name, input), in order.
pub open spec fn tool_uses_of(bs: Seq<BlockView>) -> Seq<(Seq<char>, Seq<char>, Seq<char>)>
    decreases bs.len(),
{
    if bs.len() == 0 {
        seq![]
    } else {
        tool_uses_of(bs.drop_last()) + match bs.last() {
            BlockView::ToolUse { id, name, input } => seq![(id, name, input)],
            _ => seq![],
        }
    }
}

/// The views of (id, name, input) triples.
pub open spec fn triple_views(v: Seq<(String, String, String)>) -> Seq<(Seq<char>, Seq<char>, Seq<char>)> {
    v.map_values(|t: (String, String, String)| (t.0@, t.1@, t.2@))
}

/// The tool uses an assistant message asks for, in order.
pub fn collect_pending_tool_uses(assistant_message: &ConversationMessage) -> (r: Vec<
    (String, String, String),
>)
    ensures
        triple_views(r@) == tool_uses_of(assistant_message@.blocks),
{
    let ghost bv = assistant_message@.blocks;
    let mut out: Vec<(String, String, String)> = Vec::new();
    let mut i: usize = 0;
    while i < assistant_message.blocks.len()
        invariant
            0 <= i <= assistant_message.blocks.len(),
            bv == blocks_view(assistant_message.blocks@),
            triple_views(out@) == tool_uses_of(bv.take(i as int)),
        decreases assistant_message.blocks.len() - i,
    {
        assert(bv.take(i + 1).drop_last() =~= bv.take(i as int));
        assert(bv[i as int] == assistant_message.blocks@[i as int]@);
        let ghost o0 = out@;
        match &assistant_message.blocks[i] {
            ContentBlock::ToolUse { id, name, input } => {
                out.push((copy_string(id), copy_string(name), copy_string(input)));
                assert(triple_views(out@) =~= triple_views(o0).push((id@, name@, input@)));
            },
            _ => {},
        }
        assert(triple_views(out@) =~= tool_uses_of(bv.take(i + 1)));
        i += 1;
    }
    assert(bv.take(assistant_message.blocks.len() as int) =~= bv);
    out
}

/// The result recorded for a tool use that the user interrupted.
pub fn interrupted_tool_result(tool_use_id: String, tool_name: String) -> (m: ConversationMessage)
    ensures
        m.role == MessageRole::Tool,
        m@.blocks == seq![
            BlockView::ToolResult {
                tool_use_id: tool_use_id@,
                tool_name: tool_name@,
                output: "Tool execution interrupted by user."@,
                is_error: true,
            },
        ],
        m.usage is None,
{
    ConversationMessage::tool_result(
        tool_use_id.as_str(),
        tool_name.as_str(),
        "Tool execution interrupted by user.",
        true,
    )
}

/// The text deltas of a stream, run together.
pub open spec fn streamed_text(es: Seq<AssistantEvent>) -> Seq<char>
    decreases es.len(),
{
    if es.len() == 0 {
        seq![]
    } else {
        streamed_text(es.drop_last()) + match es.last() {
            AssistantEvent::TextDelta(d) => d@,
            _ => seq![],
        }
    }
}

/// No text block is empty, and no two text blocks are next to each other.
pub open spec fn text_blocks_merged(bs: Seq<BlockView>) -> bool {
    &&& forall|i: int| 0 <= i < bs.len() ==> (#[trigger] bs[i] matches BlockView::Text { text }
        ==> text.len() > 0)
    &&& forall|i: int| 0 <= i < bs.len() - 1 ==> !(#[trigger] bs[i] is Text && bs[i + 1] is Text)
}

proof fn lemma_text_of_push(bs: Seq<BlockView>, b: BlockView)
    ensures
        text_of_blocks(bs.push(b)) == text_of_blocks(bs) + match b {
            BlockView::Text { text } => text,
            _ => seq![],
        },
{
    assert(bs.push(b).drop_last() =~= bs);
}

proof fn lemma_assembly_invariant(es: Seq<AssistantEvent>)
    ensures
        text_blocks_merged(assembly_of(es).blocks),
        assembly_of(es).blocks.len() > 0 ==> !(assembly_of(es).blocks.last() is Text),
        text_of_blocks(assembly_of(es).blocks) + assembly_of(es).text == streamed_text(es),
    decreases es.len(),
{
    if es.len() > 0 {
        let init = es.drop_last();
        lemma_assembly_invariant(init);
        let a = assembly_of(init);
        let f = text_flushed(a);
        if a.text.len() > 0 {
            lemma_text_of_push(a.blocks, BlockView::Text { text: a.text });
            let nb = a.blocks.push(BlockView::Text { text: a.text });
            assert forall|i: int| 0 <= i < nb.len() implies (#[trigger] nb[i] matches BlockView::Text { text }
                ==> text.len() > 0) by {
                if i < a.blocks.len() {
                    assert(nb[i] == a.blocks[i]);
                }
            }
            assert forall|i: int| 0 <= i < nb.len() - 1 implies !(#[trigger] nb[i] is Text && nb[i + 1] is Text) by {
                if i < a.blocks.len() - 1 {
                    assert(nb[i] == a.blocks[i]);
                    assert(nb[i + 1] == a.blocks[i + 1]);
                } else {
                    assert(nb[i] == a.blocks.last());
                }
            }
        }
        assert(text_blocks_merged(f.blocks));
        assert(f.blocks.len() > 0 && a.text.len() > 0 ==> f.blocks.last() is Text);
        assert(text_of_blocks(f.blocks) + f.text =~= text_of_blocks(a.blocks) + a.text);
        match es.last() {
            AssistantEvent::ToolUse { id, name, input } => {
                let b = BlockView::ToolUse { id: id@, name: name@, input: input@ };
                lemma_text_of_push(f.blocks, b);
                let nb = f.blocks.push(b);
                assert forall|i: int| 0 <= i < nb.len() implies (#[trigger] nb[i] matches BlockView::Text {
                    text,
                } ==> text.len() > 0) by {
                    if i < f.blocks.len() {
                        assert(nb[i] == f.blocks[i]);
                    }
                }
                assert forall|i: int| 0 <= i < nb.len() - 1 implies !(#[trigger] nb[i] is Text && nb[i
                    + 1] is Text) by {
                    if i < f.blocks.len() - 1 {
                        assert(nb[i] == f.blocks[i]);
                        assert(nb[i + 1] == f.blocks[i + 1]);
                    }
                }
            },
            AssistantEvent::Reasoning { data } => {
                let b = BlockView::Reasoning { data: data@ };
                lemma_text_of_push(f.blocks, b);
                let nb = f.blocks.push(b);
                assert forall|i: int| 0 <= i < nb.len() implies (#[trigger] nb[i] matches BlockView::Text {
                    text,
                } ==> text.len() > 0) by {
                    if i < f.blocks.len() {
                        assert(nb[i] == f.blocks[i]);
                    }
                }
                assert forall|i: int| 0 <= i < nb.len() - 1 implies !(#[trigger] nb[i] is Text && nb[i
                    + 1] is Text) by {
                    if i < f.blocks.len() - 1 {
                        assert(nb[i] == f.blocks[i]);
                        assert(nb[i + 1] == f.blocks[i + 1]);
                    }
                }
            },
            AssistantEvent::TextDelta(d) => {
                assert(text_of_blocks(a.blocks) + (a.text + d@) =~= (text_of_blocks(a.blocks)
                    + a.text) + d@);
            },
            _ => {},
        }
    }
}

/// Assembling a reply loses and reorders no text: its text blocks say
/// exactly the streamed text deltas, in order; no text block is empty and no
/// two text blocks are next to each other.
pub proof fn lemma_assembled_text_is_streamed_text(es: Seq<AssistantEvent>)
    ensures
        text_of_blocks(assembled(es).blocks) == streamed_text(es),
        text_blocks_merged(assembled(es).blocks),
{
    lemma_assembly_invariant(es);
    let a = assembly_of(es);
    if a.text.len() > 0 {
        lemma_text_of_push(a.blocks, BlockView::Text { text: a.text });
        let nb = a.blocks.push(BlockView::Text { text: a.text });
        assert forall|i: int| 0 <= i < nb.len() implies (#[trigger] nb[i] matches BlockView::Text { text }
            ==> text.len() > 0) by {
            if i < a.blocks.len() {
                assert(nb[i] == a.blocks[i]);
            }
        }
        assert forall|i: int| 0 <= i < nb.len() - 1 implies !(#[trigger] nb[i] is Text && nb[i + 1] is Text) by {
            if i < a.blocks.len() - 1 {
                assert(nb[i] == a.blocks[i]);
                assert(nb[i + 1] == a.blocks[i + 1]);
            } else {
                assert(nb[i] == a.blocks.last());
            }
        }
    } else {
        assert(text_of_blocks(a.blocks) + a.text =~= text_of_blocks(a.blocks));
    }
}

// ---------------------------------------------------------------------------
// Automatic compaction
// ---------------------------------------------------------------------------

/// Whether a turn compacts the session: once the input tokens used so far
/// reach the threshold.
pub fn auto_compaction_due(cumulative_input_tokens: u32, threshold: u32) -> (r: bool)
    ensures
        r == (cumulative_input_tokens >= threshold),
{
    cumulative_input_tokens >= threshold
}

/// The messages a compaction removed, as `[start, end)` in the session it
/// compacted: a continuation message left by an earlier compaction is not
/// among them, and the range stops at the end of the session.
pub fn removed_message_range(session: &Session, removed_message_count: usize) -> (r: (usize, usize))
    ensures
        r.0 == (if session.messages@.len() > 0 && existing_summary(session.messages@[0]@) is Some {
            1int
        } else {
            0int
        }),
        r.1 == (if r.0 + removed_message_count <= session.messages@.len() {
            r.0 + removed_message_count
        } else {
            session.messages@.len() as int
        }),
{
    let prefix: usize = if session.messages.len() > 0 && is_compact_continuation_message(
        &session.messages[0],
    ) {
        1
    } else {
        0
    };
    let end: usize = if removed_message_count <= session.messages.len() - prefix {
        prefix + removed_message_count
    } else {
        session.messages.len()
    };
    (prefix, end)
}

/// Puts a model-written summary in place of the compacted summary: the first
/// message of the compacted session gets, as its only block, the continuation
/// text for `llm_summary` (follow-up questions suppressed, recent messages
/// noted when more than one message remains). Nothing else changes.
pub fn apply_llm_summary(result: &mut CompactionResult, llm_summary: &str)
    ensures
        final(result).summary == old(result).summary,
        final(result).formatted_summary == old(result).formatted_summary,
        final(result).removed_message_count == old(result).removed_message_count,
        final(result).compacted_session@.version == old(result).compacted_session@.version,
        final(result).compacted_session@.model == old(result).compacted_session@.model,
        final(result).compacted_session@.title == old(result).compacted_session@.title,
        final(result).compacted_session@.child_sessions == old(result).compacted_session@.child_sessions,
        old(result).compacted_session.messages@.len() == 0 ==> final(result).compacted_session@.messages == old(result).compacted_session@.messages,
        old(result).compacted_session.messages@.len() > 0 ==> final(result).compacted_session@.messages == old(result).compacted_session@.messages.update(
            0,
            MessageView {
                role: old(result).compacted_session@.messages[0].role,
                blocks: seq![
                    BlockView::Text {
                        text: continuation_text(
                            llm_summary@,
                            true,
                            old(result).compacted_session.messages@.len() > 1,
                        ),
                    },
                ],
                usage: old(result).compacted_session@.messages[0].usage,
            },
        ),
{
    let n = result.compacted_session.messages.len();
    if n == 0 {
        return;
    }
    let continuation = get_compact_continuation_message(llm_summary, true, n > 1);
    let mut blocks: Vec<ContentBlock> = Vec::new();
    blocks.push(ContentBlock::Text { text: continuation });
    let ghost before = result.compacted_session.messages@;
    let first = &result.compacted_session.messages[0];
    let replaced = ConversationMessage { role: first.role, blocks, usage: first.usage };
    result.compacted_session.messages.set(0, replaced);
    proof {
        assert(blocks_view(result.compacted_session.messages@[0].blocks@) =~= seq![
            BlockView::Text { text: continuation_text(llm_summary@, true, n > 1) },
        ]);
        assert(msgs_view(result.compacted_session.messages@) =~= msgs_view(before).update(
            0,
            result.compacted_session.messages@[0]@,
        ));
    }
}

// ---------------------------------------------------------------------------
// Asking the model for a summary
// ---------------------------------------------------------------------------

/// Token estimate above which no more of the removed messages are sent.
pub const MAX_SUMMARIZER_TOKENS: usize = 100_000;

/// What the model is asked to write.
pub const SUMMARY_TEMPLATE: &'static str = "Summarize this conversation segment concisely.\nOutput EXACTLY this structure with no other text:\n## Goal\n[what the user was trying to accomplish]\n## Progress (Done / In Progress)\n[what has been completed and what is in progress]\n## Key Decisions\n[important choices made during the conversation]\n## Next Steps\n[pending work or what should happen next]\n## Relevant Files\n[any file paths mentioned, or 'None']";

/// The text of a block sent to the summarizer.
pub open spec fn block_payload(b: BlockView) -> Seq<char> {
    match b {
        BlockView::Text { text } => text,
        BlockView::ToolUse { input, .. } => input,
        BlockView::ToolResult { output, .. } => output,
        BlockView::Reasoning { data } => data,
        BlockView::ToolResultImage { caption, .. } => caption,
    }
}

/// One message as sent to the summarizer: its role in brackets, then its
/// blocks' texts joined by ` | `.
pub open spec fn summarizer_part(m: MessageView) -> Seq<char> {
    "["@ + role_name(m.role) + "]: "@ + join(
        m.blocks.map_values(|b: BlockView| block_payload(b)),
        " | "@,
    )
}

/// The token estimate of a part: its UTF-8 length over four, plus one.
pub open spec fn part_tokens(p: Seq<char>) -> int {
    (utf8_len(p) / 4 + 1) as int
}

/// The parts sent, from the first message on, until the next would take the
/// estimate (starting at `used`) past the cap.
pub open spec fn summarizer_parts(ms: Seq<MessageView>, used: int) -> Seq<Seq<char>>
    decreases ms.len(),
{
    if ms.len() == 0 {
        seq![]
    } else {
        let p = summarizer_part(ms[0]);
        if used + part_tokens(p) > MAX_SUMMARIZER_TOKENS {
            seq![]
        } else {
            seq![p] + summarizer_parts(ms.drop_first(), used + part_tokens(p))
        }
    }
}

/// The system hint of a summary request.
pub open spec fn summarizer_hint(model: Option<Seq<char>>) -> Seq<char> {
    match model {
        Some(m) => "You are summarizing a conversation with model "@ + m + "."@,
        None => "You are summarizing a conversation segment."@,
    }
}

/// The user message of a summary request.
pub open spec fn summarizer_content(parts: Seq<Seq<char>>) -> Seq<char> {
    "Conversation to summarize:\n\n"@ + join(parts, "\n\n"@) + "\n\n---\n\n"@ + SUMMARY_TEMPLATE@
}

/// Appends `sep` and then `w` to `v`, or only `w` when `first`.
fn push_joined(v: &mut Vec<char>, w: &Vec<char>, sep: &str, first: bool)
    ensures
        first ==> final(v)@ == old(v)@ + w@,
        !first ==> final(v)@ == old(v)@ + sep@ + w@,
{
    if !first {
        push_str(v, sep);
    }
    crate::text::push_all(v, w);
}

/// The part of one message.
fn summarizer_part_of(m: &ConversationMessage) -> (r: Vec<char>)
    ensures
        r@ == summarizer_part(m@),
{
    let mut v = chars_of("[");
    match m.role {
        MessageRole::System => push_str(&mut v, "system"),
        MessageRole::User => push_str(&mut v, "user"),
        MessageRole::Assistant => push_str(&mut v, "assistant"),
        MessageRole::Tool => push_str(&mut v, "tool"),
    }
    push_str(&mut v, "]: ");
    let ghost head = v@;
    let ghost payloads = m@.blocks.map_values(|b: BlockView| block_payload(b));
    let mut text: Vec<char> = Vec::new();
    let mut i: usize = 0;
    while i < m.blocks.len()
        invariant
            0 <= i <= m.blocks.len(),
            payloads == m@.blocks.map_values(|b: BlockView| block_payload(b)),
            payloads.len() == m.blocks@.len(),
            text@ == join(payloads.take(i as int), " | "@),
        decreases m.blocks.len() - i,
    {
        let w: Vec<char> = match &m.blocks[i] {
            ContentBlock::Text { text } => chars_of(text.as_str()),
            ContentBlock::ToolUse { input, .. } => chars_of(input.as_str()),
            ContentBlock::ToolResult { output, .. } => chars_of(output.as_str()),
            ContentBlock::Reasoning { data } => chars_of(data.as_str()),
            ContentBlock::ToolResultImage { caption, .. } => chars_of(caption.as_str()),
        };
        proof {
            assert(m@.blocks[i as int] == m.blocks@[i as int]@);
            assert(w@ == payloads[i as int]);
            assert(payloads.take(i + 1).drop_last() =~= payloads.take(i as int));
        }
        push_joined(&mut text, &w, " | ", i == 0);
        proof {
            if i == 0 {
                assert(payloads.take(1) =~= seq![payloads[0]]);
            }
        }
        i += 1;
    }
    proof {
        assert(payloads.take(m.blocks.len() as int) =~= payloads);
    }
    crate::text::push_all(&mut v, &text);
    v
}

/// The request that asks the model to summarize removed messages: the system
/// hint and the user message. Messages are sent from the first on while the
/// token estimate stays within the cap; when none fits, no request is made.
pub fn summarizer_request(removed: &Vec<ConversationMessage>, model: Option<&str>) -> (r: Option<
    (String, String),
>)
    ensures
        summarizer_parts(msgs_view(removed@), 0).len() == 0 ==> r is None,
        summarizer_parts(msgs_view(removed@), 0).len() > 0 ==> (r matches Some((h, c)) && h@
            == summarizer_hint(
            match model {
                Some(m) => Some(m@),
                None => None,
            },
        ) && c@ == summarizer_content(summarizer_parts(msgs_view(removed@), 0))),
{
    let ghost ms = msgs_view(removed@);
    let mut parts: Vec<Vec<char>> = Vec::new();
    let mut used: usize = 0;
    let mut i: usize = 0;
    let mut stopped = false;
    assert(ms.skip(0) =~= ms);
    assert(vviews(parts@) + summarizer_parts(ms, 0) =~= summarizer_parts(ms, 0));
    while i < removed.len() && !stopped
        invariant
            0 <= i <= removed.len(),
            ms == msgs_view(removed@),
            used <= MAX_SUMMARIZER_TOKENS,
            !stopped ==> vviews(parts@) + summarizer_parts(ms.skip(i as int), used as int)
                == summarizer_parts(ms, 0),
            stopped ==> vviews(parts@) == summarizer_parts(ms, 0),
        decreases removed.len() - i, if stopped { 0int } else { 1int },
    {
        let part = summarizer_part_of(&removed[i]);
        let ps = string_of(&part);
        let len = crate::text::utf8_len_of(ps.as_str());
        let tokens = len / 4 + 1;
        proof {
            assert(ms.skip(i as int)[0] == removed@[i as int]@);
            assert(ms.skip(i as int).drop_first() =~= ms.skip(i + 1));
        }
        if tokens > MAX_SUMMARIZER_TOKENS - used {
            proof {
                assert(summarizer_parts(ms.skip(i as int), used as int) =~= Seq::<Seq<char>>::empty());
                assert(vviews(parts@) =~= vviews(parts@) + Seq::<Seq<char>>::empty());
            }
            stopped = true;
        } else {
            let ghost before = vviews(parts@);
            parts.push(part);
            proof {
                assert(vviews(parts@) =~= before.push(ps@));
                assert(before.push(ps@) + summarizer_parts(ms.skip(i + 1), used + tokens) =~= before
                    + summarizer_parts(ms.skip(i as int), used as int));
            }
            used = used + tokens;
            i += 1;
        }
    }
    proof {
        if !stopped {
            assert(ms.skip(i as int).len() == 0);
            assert(vviews(parts@) =~= vviews(parts@) + summarizer_parts(ms.skip(i as int), used as int));
        }
    }
    if parts.len() == 0 {
        return None;
    }
    let mut content = chars_of("Conversation to summarize:\n\n");
    let joined = crate::text::join_vecs(&parts, "\n\n");
    crate::text::push_all(&mut content, &joined);
    push_str(&mut content, "\n\n---\n\n");
    push_str(&mut content, SUMMARY_TEMPLATE);
    let hint = match model {
        Some(m) => {
            let mut h = chars_of("You are summarizing a conversation with model ");
            push_str(&mut h, m);
            push_str(&mut h, ".");
            string_of(&h)
        },
        None => string_of(&chars_of("You are summarizing a conversation segment.")),
    };
    Some((hint, string_of(&content)))
}

/// The text of a summarizer reply: its text deltas joined, trimmed; nothing
/// when that is empty.
pub open spec fn reply_text(events: Seq<AssistantEvent>) -> Seq<char>
    decreases events.len(),
{
    if events.len() == 0 {
        seq![]
    } else {
        reply_text(events.drop_last()) + match events.last() {
            AssistantEvent::TextDelta(t) => t@,
            _ => seq![],
        }
    }
}

/// The summary a reply gives, trimmed, or nothing when it is blank.
pub fn summary_from_reply(events: &Vec<AssistantEvent>) -> (r: Option<String>)
    ensures
        trim(reply_text(events@)).len() == 0 ==> r is None,
        trim(reply_text(events@)).len() > 0 ==> (r matches Some(t) && t@ == trim(
            reply_text(events@),
        )),
{
    let mut text: Vec<char> = Vec::new();
    let mut i: usize = 0;
    while i < events.len()
        invariant
            0 <= i <= events.len(),
            text@ == reply_text(events@.take(i as int)),
        decreases events.len() - i,
    {
        proof {
            assert(events@.take(i + 1).drop_last() =~= events@.take(i as int));
        }
        match &events[i] {
            AssistantEvent::TextDelta(t) => {
                let mut cs = chars_of(t.as_str());
                text.append(&mut cs);
            },
            _ => {},
        }
        i += 1;
    }
    proof {
        assert(events@.take(events.len() as int) =~= events@);
    }
    let trimmed = trim_vec(&text);
    if trimmed.len() == 0 {
        None
    } else {
        Some(string_of(&trimmed))
    }
}

/// The compressed summary wrapped as the compaction's summary, or nothing
/// when compression left nothing.
pub fn wrap_compressed_summary(compressed: &str) -> (r: Option<String>)
    ensures
        compressed@.len() == 0 ==> r is None,
        compressed@.len() > 0 ==> (r matches Some(t) && t@ == "<summary>"@ + compressed@
            + "</summary>"@),
{
    let c = chars_of(compressed);
    if c.len() == 0 {
        return None;
    }
    let mut v = chars_of("<summary>");
    crate::text::push_all(&mut v, &c);
    push_str(&mut v, "</summary>");
    Some(string_of(&v))
}

} // verus!
