//! Exporting a conversation as text, and the file name it is saved under.
use vstd::prelude::*;

use crate::compact::summarize::{role_label, role_name};
use crate::message::{msgs_view, BlockView, ContentBlock, MessageRole, MessageView, Session};
use crate::paths::{extension_of, path_extension};
use crate::text::{
    ascii_lower, ascii_lower_seq, ascii_lower_vec, eq_str, bool_text, chars_of, dec, is_ascii_alnum, join, join_vecs, lines, push_bool,
    push_dec, push_str, split_chars, split_lines, split_on, string_of, vviews,
};

verus! {

/// The export lines of one block: text as is, tool calls and results tagged;
/// reasoning and images give none.
pub open spec fn block_export_lines(b: BlockView) -> Seq<Seq<char>> {
    match b {
        BlockView::Text { text } => seq![text],
        BlockView::ToolUse { id, name, input } => seq![
            "[tool_use id="@ + id + " name="@ + name + "] "@ + input,
        ],
        BlockView::ToolResult { tool_use_id, tool_name, output, is_error } => seq![
            "[tool_result id="@ + tool_use_id + " name="@ + tool_name + " error="@ + bool_text(
                is_error,
            ) + "] "@ + output,
        ],
        _ => seq![],
    }
}

/// The export lines of the blocks, in order.
pub open spec fn blocks_export_lines(bs: Seq<BlockView>) -> Seq<Seq<char>>
    decreases bs.len(),
{
    if bs.len() == 0 {
        seq![]
    } else {
        blocks_export_lines(bs.drop_last()) + block_export_lines(bs.last())
    }
}

/// The export lines of message number `n` (counted from 1): a heading, its
/// blocks, and a blank line.
pub open spec fn message_export_lines(n: nat, m: MessageView) -> Seq<Seq<char>> {
    seq!["## "@ + dec(n) + ". "@ + role_name(m.role)] + blocks_export_lines(m.blocks) + seq![
        seq![],
    ]
}

/// The export lines of the messages, numbered from 1.
pub open spec fn messages_export_lines(ms: Seq<MessageView>) -> Seq<Seq<char>>
    decreases ms.len(),
{
    if ms.len() == 0 {
        seq![]
    } else {
        messages_export_lines(ms.drop_last()) + message_export_lines(ms.len(), ms.last())
    }
}

/// The exported text of a conversation.
pub open spec fn export_text(ms: Seq<MessageView>) -> Seq<char> {
    join(seq!["# Conversation Export"@, seq![]] + messages_export_lines(ms), "\n"@)
}

/// The first text block of the blocks, blank or not.
pub open spec fn first_text_any(bs: Seq<BlockView>) -> Option<Seq<char>>
    decreases bs.len(),
{
    if bs.len() == 0 {
        None
    } else if bs[0] is Text {
        Some(bs[0]->text)
    } else {
        first_text_any(bs.drop_first())
    }
}

/// The first text of the first user message that has one.
pub open spec fn first_user_text(ms: Seq<MessageView>) -> Option<Seq<char>>
    decreases ms.len(),
{
    if ms.len() == 0 {
        None
    } else if ms[0].role == MessageRole::User && first_text_any(ms[0].blocks) is Some {
        first_text_any(ms[0].blocks)
    } else {
        first_user_text(ms.drop_first())
    }
}

/// The non-empty pieces, in order.
pub open spec fn nonempty_parts(ps: Seq<Seq<char>>) -> Seq<Seq<char>>
    decreases ps.len(),
{
    if ps.len() == 0 {
        seq![]
    } else if ps.last().len() > 0 {
        nonempty_parts(ps.drop_last()).push(ps.last())
    } else {
        nonempty_parts(ps.drop_last())
    }
}

/// A character as it appears in a file name: ASCII letters and digits in
/// lowercase, anything else as `-`.
pub open spec fn slug_char(c: char) -> char {
    if is_ascii_alnum(c) {
        ascii_lower(c)
    } else {
        '-'
    }
}

/// The file name a conversation is exported to: the first line of the first
/// user text (or `conversation`), reduced to at most eight lowercase
/// alphanumeric words joined by `-` (or `conversation` when none is left),
/// with `.txt` appended.
pub open spec fn export_filename(ms: Seq<MessageView>) -> Seq<char> {
    let source = match first_user_text(ms) {
        Some(t) => if lines(t).len() > 0 {
            lines(t)[0]
        } else {
            "conversation"@
        },
        None => "conversation"@,
    };
    let parts = nonempty_parts(split_on(source.map_values(|c: char| slug_char(c)), '-'));
    let kept = parts.take(if parts.len() <= 8 {
        parts.len() as int
    } else {
        8
    });
    let stem = join(kept, "-"@);
    (if stem.len() == 0 {
        "conversation"@
    } else {
        stem
    }) + ".txt"@
}

/// Appends the export lines of the blocks of a message to `lines`.
fn push_block_lines(out: &mut Vec<Vec<char>>, blocks: &Vec<ContentBlock>)
    ensures
        vviews(final(out)@) == vviews(old(out)@) + blocks_export_lines(
            crate::message::blocks_view(blocks@),
        ),
{
    let ghost bv = crate::message::blocks_view(blocks@);
    let ghost o0 = vviews(out@);
    let mut j: usize = 0;
    assert(bv.take(0) =~= Seq::<BlockView>::empty());
    assert(vviews(out@) =~= o0 + blocks_export_lines(bv.take(0)));
    while j < blocks.len()
        invariant
            0 <= j <= blocks.len(),
            bv == crate::message::blocks_view(blocks@),
            vviews(out@) == o0 + blocks_export_lines(bv.take(j as int)),
        decreases blocks.len() - j,
    {
        assert(bv.take(j + 1).drop_last() == bv.take(j as int));
        assert(bv.take(j + 1).last() == blocks@[j as int]@);
        let ghost before = vviews(out@);
        match &blocks[j] {
            ContentBlock::Text { text } => {
                out.push(chars_of(text.as_str()));
            },
            ContentBlock::ToolUse { id, name, input } => {
                let mut l = chars_of("[tool_use id=");
                push_str(&mut l, id.as_str());
                push_str(&mut l, " name=");
                push_str(&mut l, name.as_str());
                push_str(&mut l, "] ");
                push_str(&mut l, input.as_str());
                out.push(l);
            },
            ContentBlock::ToolResult { tool_use_id, tool_name, output, is_error } => {
                let mut l = chars_of("[tool_result id=");
                push_str(&mut l, tool_use_id.as_str());
                push_str(&mut l, " name=");
                push_str(&mut l, tool_name.as_str());
                push_str(&mut l, " error=");
                push_bool(&mut l, *is_error);
                push_str(&mut l, "] ");
                push_str(&mut l, output.as_str());
                out.push(l);
            },
            _ => {},
        }
        assert(vviews(out@) =~= before + block_export_lines(blocks@[j as int]@));
        j += 1;
    }
    assert(bv.take(blocks.len() as int) == bv);
}

/// The conversation as text: a title, then each message numbered with its
/// role, its text and tool calls and results, and a blank line.
pub fn render_export_text(session: &Session) -> (r: String)
    ensures
        r@ == export_text(msgs_view(session.messages@)),
{
    let ghost mv = msgs_view(session.messages@);
    let mut out: Vec<Vec<char>> = Vec::new();
    out.push(chars_of("# Conversation Export"));
    out.push(Vec::new());
    let ghost head = seq!["# Conversation Export"@, Seq::<char>::empty()];
    assert(vviews(out@) =~= head);
    let mut i: usize = 0;
    assert(mv.take(0) =~= Seq::<MessageView>::empty());
    assert(vviews(out@) =~= head + messages_export_lines(mv.take(0)));
    while i < session.messages.len()
        invariant
            0 <= i <= session.messages.len(),
            mv == msgs_view(session.messages@),
            vviews(out@) == head + messages_export_lines(mv.take(i as int)),
        decreases session.messages.len() - i,
    {
        let m = &session.messages[i];
        assert(mv.take(i + 1).drop_last() == mv.take(i as int));
        assert(mv.take(i + 1).last() == m@);
        let ghost before = vviews(out@);
        let mut heading = chars_of("## ");
        push_dec(&mut heading, (i + 1) as u64);
        push_str(&mut heading, ". ");
        push_str(&mut heading, role_label(m.role));
        let ghost h = heading@;
        assert(h == "## "@ + dec((i + 1) as nat) + ". "@ + role_name(m@.role));
        out.push(heading);
        assert(vviews(out@) =~= before.push(h));
        push_block_lines(&mut out, &m.blocks);
        let ghost bl = blocks_export_lines(m@.blocks);
        assert(vviews(out@) == before.push(h) + bl);
        out.push(Vec::new());
        assert(vviews(out@) =~= (before.push(h) + bl).push(Seq::<char>::empty()));
        assert(message_export_lines((i + 1) as nat, m@) == seq![h] + bl + seq![Seq::<char>::empty()]);
        assert(vviews(out@) =~= before + message_export_lines((i + 1) as nat, m@));
        i += 1;
    }
    assert(mv.take(session.messages.len() as int) == mv);
    string_of(&join_vecs(&out, "\n"))
}

/// The first text block of the blocks, blank or not.
fn first_text_of(blocks: &Vec<ContentBlock>) -> (r: Option<Vec<char>>)
    ensures
        match r {
            Some(t) => first_text_any(crate::message::blocks_view(blocks@)) == Some(t@),
            None => first_text_any(crate::message::blocks_view(blocks@)) is None,
        },
{
    let ghost bv = crate::message::blocks_view(blocks@);
    let mut j: usize = 0;
    assert(bv.skip(0) == bv);
    while j < blocks.len()
        invariant
            0 <= j <= blocks.len(),
            bv == crate::message::blocks_view(blocks@),
            first_text_any(bv) == first_text_any(bv.skip(j as int)),
        decreases blocks.len() - j,
    {
        assert(bv.skip(j as int)[0] == blocks@[j as int]@);
        assert(bv.skip(j as int).drop_first() == bv.skip(j + 1));
        match &blocks[j] {
            ContentBlock::Text { text } => {
                return Some(chars_of(text.as_str()));
            },
            _ => {},
        }
        j += 1;
    }
    assert(bv.skip(blocks.len() as int) =~= Seq::<BlockView>::empty());
    None
}

/// The first text of the first user message that has one.
fn first_user_text_vec(messages: &Vec<crate::message::ConversationMessage>) -> (r: Option<Vec<char>>)
    ensures
        match r {
            Some(t) => first_user_text(msgs_view(messages@)) == Some(t@),
            None => first_user_text(msgs_view(messages@)) is None,
        },
{
    let ghost mv = msgs_view(messages@);
    let mut i: usize = 0;
    assert(mv.skip(0) == mv);
    while i < messages.len()
        invariant
            0 <= i <= messages.len(),
            mv == msgs_view(messages@),
            first_user_text(mv) == first_user_text(mv.skip(i as int)),
        decreases messages.len() - i,
    {
        let m = &messages[i];
        assert(mv.skip(i as int)[0] == m@);
        assert(mv.skip(i as int).drop_first() == mv.skip(i + 1));
        if m.role == MessageRole::User {
            let t = first_text_of(&m.blocks);
            if t.is_some() {
                return t;
            }
        }
        i += 1;
    }
    assert(mv.skip(messages.len() as int) =~= Seq::<MessageView>::empty());
    None
}

/// The file name a conversation is exported to (see `export_filename`).
pub fn default_export_filename(session: &Session) -> (r: String)
    ensures
        r@ == export_filename(msgs_view(session.messages@)),
{
    let found = first_user_text_vec(&session.messages);
    let source: Vec<char> = match found {
        Some(t) => {
            let ls = split_lines(&t);
            if ls.len() > 0 {
                assert(vviews(ls@)[0] == ls@[0]@);
                ls[0].clone()
            } else {
                chars_of("conversation")
            }
        },
        None => chars_of("conversation"),
    };
    let mut mapped: Vec<char> = Vec::new();
    let mut k: usize = 0;
    while k < source.len()
        invariant
            0 <= k <= source.len(),
            mapped@ == source@.take(k as int).map_values(|c: char| slug_char(c)),
        decreases source.len() - k,
    {
        let c = source[k];
        let m = if crate::text::is_ascii_alnum_char(c) {
            crate::text::ascii_lower_char(c)
        } else {
            '-'
        };
        mapped.push(m);
        assert(source@.take(k + 1).map_values(|c: char| slug_char(c)) =~= source@.take(
            k as int,
        ).map_values(|c: char| slug_char(c)).push(slug_char(c)));
        k += 1;
    }
    assert(source@.take(source.len() as int) == source@);
    let pieces = split_chars(&mapped, '-');
    let ghost pv = vviews(pieces@);
    let mut parts: Vec<Vec<char>> = Vec::new();
    let mut p: usize = 0;
    assert(pv.take(0) =~= Seq::<Seq<char>>::empty());
    while p < pieces.len()
        invariant
            0 <= p <= pieces.len(),
            pv == vviews(pieces@),
            vviews(parts@) == nonempty_parts(pv.take(p as int)),
        decreases pieces.len() - p,
    {
        assert(pv.take(p + 1).drop_last() == pv.take(p as int));
        assert(pv.take(p + 1).last() == pieces@[p as int]@);
        if pieces[p].len() > 0 {
            let ghost before = vviews(parts@);
            parts.push(pieces[p].clone());
            assert(vviews(parts@) =~= before.push(pieces@[p as int]@));
        }
        p += 1;
    }
    assert(pv.take(pieces.len() as int) == pv);
    let n: usize = if parts.len() <= 8 {
        parts.len()
    } else {
        8
    };
    let mut kept: Vec<Vec<char>> = Vec::new();
    let mut q: usize = 0;
    while q < n
        invariant
            0 <= q <= n <= parts.len(),
            vviews(kept@) == vviews(parts@).take(q as int),
        decreases n - q,
    {
        let ghost before = vviews(kept@);
        kept.push(parts[q].clone());
        assert(vviews(kept@) =~= before.push(parts@[q as int]@));
        assert(vviews(parts@).take(q + 1) =~= vviews(parts@).take(q as int).push(parts@[q as int]@));
        q += 1;
    }
    let stem = join_vecs(&kept, "-");
    let mut name = if stem.len() == 0 {
        chars_of("conversation")
    } else {
        stem
    };
    push_str(&mut name, ".txt");
    string_of(&name)
}


/// The file name an export is written under: `name` itself when its
/// extension is `txt` in any case of letters, else `name` with `.txt` added.
pub open spec fn export_final_name(name: Seq<char>) -> Seq<char> {
    if path_extension(name) matches Some(e) && ascii_lower_seq(e) == "txt"@ {
        name
    } else {
        name + ".txt"@
    }
}

/// The file name of an export: the requested name, or the default one of
/// the conversation, with `.txt` added unless it already ends in it.
pub fn export_file_name(requested_path: Option<&str>, session: &Session) -> (r: String)
    ensures
        r@ == export_final_name(
            match requested_path {
                Some(p) => p@,
                None => export_filename(msgs_view(session.messages@)),
            },
        ),
{
    let name: String = match requested_path {
        Some(p) => p.to_owned(),
        None => default_export_filename(session),
    };
    let is_txt = match extension_of(name.as_str()) {
        Some(e) => eq_str(&ascii_lower_vec(&chars_of(e.as_str())), "txt"),
        None => false,
    };
    if is_txt {
        name
    } else {
        let mut v = chars_of(name.as_str());
        push_str(&mut v, ".txt");
        string_of(&v)
    }
}


/// The lines of the first `j` messages come first in the lines of all.
proof fn lemma_export_lines_prefix(ms: Seq<MessageView>, j: int)
    requires
        0 <= j <= ms.len(),
    ensures
        messages_export_lines(ms.take(j)) =~= messages_export_lines(ms).take(
            messages_export_lines(ms.take(j)).len() as int,
        ),
        messages_export_lines(ms.take(j)).len() <= messages_export_lines(ms).len(),
    decreases ms.len(),
{
    if j < ms.len() {
        assert(ms.drop_last().take(j) =~= ms.take(j));
        lemma_export_lines_prefix(ms.drop_last(), j);
    } else {
        assert(ms.take(j) =~= ms);
    }
}

/// In an export, message `i` (counted from 0) is introduced, right after
/// the lines of the messages before it, by the heading `## n. role` with
/// `n = i + 1` and the name of that message's own role.
pub proof fn lemma_export_heading(ms: Seq<MessageView>, i: int)
    requires
        0 <= i < ms.len(),
    ensures
        messages_export_lines(ms)[messages_export_lines(ms.take(i)).len() as int] == "## "@ + dec(
            (i + 1) as nat,
        ) + ". "@ + match ms[i].role {
            MessageRole::System => "system"@,
            MessageRole::User => "user"@,
            MessageRole::Assistant => "assistant"@,
            MessageRole::Tool => "tool"@,
        },
{
    lemma_export_lines_prefix(ms, i + 1);
    let upto = ms.take(i + 1);
    assert(upto.drop_last() =~= ms.take(i));
    assert(upto.last() == ms[i]);
    let before = messages_export_lines(ms.take(i));
    let own = message_export_lines((i + 1) as nat, ms[i]);
    assert(messages_export_lines(upto) == before + own);
    let k = before.len() as int;
    assert(own[0] == "## "@ + dec((i + 1) as nat) + ". "@ + role_name(ms[i].role));
    assert(messages_export_lines(upto)[k] == own[0]);
    assert(messages_export_lines(ms).take(messages_export_lines(upto).len() as int)[k]
        == messages_export_lines(ms)[k]);
}

} // verus!
