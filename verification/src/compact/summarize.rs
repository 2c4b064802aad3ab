//! The mechanical summary of the messages that a compaction removes.
use vstd::prelude::*;

use crate::message::{BlockView, ContentBlock, ConversationMessage, MessageRole, MessageView};
use crate::text::{
    ascii_lower_seq, ascii_lower_vec, chars_of, contains, contains_vec, dec, ellipsize,
    ellipsize_all, ellipsize_vec, find_from, find_vec_from, is_blank, is_ws, is_ws_char, join,
    last_n, last_n_ellipsized, lemma_find_from_some, lex_lt, opt_vview, prefix_all, push_str,
    slice_chars, trim, vviews, contains_vec_of, reverse_vecs, eq_vec, lex_less, push_all, push_dec,
    join_vecs, string_of, strings_all,
};

verus! {

// ---------------------------------------------------------------------------
// Specifications
// ---------------------------------------------------------------------------

/// The first text block of `bs` that is not blank.
pub open spec fn first_text(bs: Seq<BlockView>) -> Option<Seq<char>>
    decreases bs.len(),
{
    if bs.len() == 0 {
        None
    } else if bs[0] is Text && trim(bs[0]->text).len() > 0 {
        Some(bs[0]->text)
    } else {
        first_text(bs.drop_first())
    }
}

/// The summary line of a block before it is shortened.
pub open spec fn block_summary_raw(b: BlockView) -> Seq<char> {
    match b {
        BlockView::Text { text } => text,
        BlockView::ToolUse { name, input, .. } => "tool_use "@ + name + "("@ + input + ")"@,
        BlockView::ToolResult { tool_name, output, is_error, .. } => "tool_result "@ + tool_name
            + ": "@ + (if is_error {
            "error "@
        } else {
            Seq::empty()
        }) + output,
        BlockView::Reasoning { .. } => "reasoning"@,
        BlockView::ToolResultImage { tool_name, caption, .. } => "tool_result_image "@ + tool_name
            + ": "@ + caption,
    }
}

/// The summary line of a block: its raw line cut to 160 characters.
pub open spec fn block_summary(b: BlockView) -> Seq<char> {
    ellipsize(block_summary_raw(b), 160)
}

/// First non-blank texts of the messages of role `role`, in order.
pub open spec fn role_texts(ms: Seq<MessageView>, role: MessageRole) -> Seq<Seq<char>>
    decreases ms.len(),
{
    if ms.len() == 0 {
        seq![]
    } else {
        let rest = role_texts(ms.drop_last(), role);
        let m = ms.last();
        if m.role == role && first_text(m.blocks) is Some {
            rest.push(first_text(m.blocks)->0)
        } else {
            rest
        }
    }
}

/// The last `limit` first texts of messages of role `role`, each cut to 160 characters.
pub open spec fn recent_role_summaries(ms: Seq<MessageView>, role: MessageRole, limit: nat) -> Seq<
    Seq<char>,
> {
    ellipsize_all(last_n(role_texts(ms, role), limit), 160)
}

/// A text that mentions outstanding work.
pub open spec fn mentions_pending(text: Seq<char>) -> bool {
    let lowered = ascii_lower_seq(text);
    contains(lowered, "todo"@) || contains(lowered, "next"@) || contains(lowered, "pending"@)
        || contains(lowered, "follow up"@) || contains(lowered, "remaining"@)
}

/// First non-blank texts of all messages that mention outstanding work, in order.
pub open spec fn pending_texts(ms: Seq<MessageView>) -> Seq<Seq<char>>
    decreases ms.len(),
{
    if ms.len() == 0 {
        seq![]
    } else {
        let rest = pending_texts(ms.drop_last());
        let t = first_text(ms.last().blocks);
        if t is Some && mentions_pending(t->0) {
            rest.push(t->0)
        } else {
            rest
        }
    }
}

/// The pending-work lines of a summary: the last three texts that mention outstanding work.
pub open spec fn pending_work(ms: Seq<MessageView>) -> Seq<Seq<char>> {
    ellipsize_all(last_n(pending_texts(ms), 3), 160)
}

/// Characters that end a URL candidate.
pub open spec fn is_url_delim(c: char) -> bool {
    is_ws(c) || c == '"' || c == '\'' || c == '<' || c == '>' || c == ')' || c == ']' || c == '}'
        || c == ','
}

/// Characters trimmed from the end of a URL candidate.
pub open spec fn is_url_tail(c: char) -> bool {
    c == '.' || c == ',' || c == ';' || c == ':' || c == '!' || c == '?'
}

/// `s` with trailing URL punctuation removed.
pub open spec fn trim_url_tail(s: Seq<char>) -> Seq<char>
    decreases s.len(),
{
    if s.len() > 0 && is_url_tail(s.last()) {
        trim_url_tail(s.drop_last())
    } else {
        s
    }
}

/// The first index `>= pos` where `http://` or `https://` begins.
pub open spec fn url_start(s: Seq<char>, pos: int) -> Option<int> {
    match (find_from(s, "http://"@, pos), find_from(s, "https://"@, pos)) {
        (Some(a), Some(b)) => Some(if a <= b {
            a
        } else {
            b
        }),
        (Some(a), None) => Some(a),
        (None, Some(b)) => Some(b),
        (None, None) => None,
    }
}

/// The first index `>= i` holding a URL delimiter, or the length of `s`.
pub open spec fn url_end(s: Seq<char>, i: int) -> int
    decreases s.len() - i,
{
    if i >= s.len() {
        s.len() as int
    } else if is_url_delim(s[i]) {
        i
    } else {
        url_end(s, i + 1)
    }
}

/// The URL candidates of `s` from `pos` on.  A URL runs from its scheme to the
/// next delimiter (its first character, `h`, is never one), trailing punctuation
/// dropped, and empty candidates skipped.
pub open spec fn urls_from(s: Seq<char>, pos: int) -> Seq<Seq<char>>
    decreases s.len() - pos,
{
    if pos < 0 || pos >= s.len() {
        seq![]
    } else {
        match url_start(s, pos) {
            None => seq![],
            Some(st) => {
                if st < pos {
                    seq![]
                } else {
                    let e = url_end(s, st + 1);
                    let c = trim_url_tail(s.subrange(st, e));
                    let head = if c.len() > 0 {
                        seq![c]
                    } else {
                        seq![]
                    };
                    if pos < e <= s.len() {
                        head + urls_from(s, e)
                    } else {
                        head
                    }
                }
            },
        }
    }
}

/// URL candidates of all text blocks of `bs`, in order.
pub open spec fn blocks_urls(bs: Seq<BlockView>) -> Seq<Seq<char>>
    decreases bs.len(),
{
    if bs.len() == 0 {
        seq![]
    } else {
        blocks_urls(bs.drop_last()) + match bs.last() {
            BlockView::Text { text } => urls_from(text, 0),
            _ => seq![],
        }
    }
}

/// URL candidates of all text blocks of all messages, in order.
pub open spec fn messages_urls(ms: Seq<MessageView>) -> Seq<Seq<char>>
    decreases ms.len(),
{
    if ms.len() == 0 {
        seq![]
    } else {
        messages_urls(ms.drop_last()) + blocks_urls(ms.last().blocks)
    }
}

/// Walks `urls` from the end, keeping each URL not kept yet, until `limit` are kept.
pub open spec fn collect_back(urls: Seq<Seq<char>>, acc: Seq<Seq<char>>, limit: nat) -> Seq<
    Seq<char>,
>
    decreases urls.len(),
{
    if urls.len() == 0 || acc.len() >= limit {
        acc
    } else if acc.contains(urls.last()) {
        collect_back(urls.drop_last(), acc, limit)
    } else {
        collect_back(urls.drop_last(), acc.push(urls.last()), limit)
    }
}

/// The ten most recently mentioned distinct URLs, oldest first.
pub open spec fn key_urls(ms: Seq<MessageView>) -> Seq<Seq<char>> {
    collect_back(messages_urls(ms), seq![], 10).reverse()
}

/// The first non-blank text of the last message that has one.
pub open spec fn last_text(ms: Seq<MessageView>) -> Option<Seq<char>>
    decreases ms.len(),
{
    if ms.len() == 0 {
        None
    } else if first_text(ms.last().blocks) is Some {
        first_text(ms.last().blocks)
    } else {
        last_text(ms.drop_last())
    }
}

/// The current-work line of a summary.
pub open spec fn current_work(ms: Seq<MessageView>) -> Option<Seq<char>> {
    match last_text(ms) {
        Some(t) => Some(ellipsize(t, 200)),
        None => None,
    }
}

/// Number of messages of role `role`.
pub open spec fn count_role(ms: Seq<MessageView>, role: MessageRole) -> nat
    decreases ms.len(),
{
    if ms.len() == 0 {
        0
    } else {
        count_role(ms.drop_last(), role) + if ms.last().role == role {
            1nat
        } else {
            0nat
        }
    }
}

/// Tool names that the blocks mention.
pub open spec fn blocks_tool_names(bs: Seq<BlockView>) -> Seq<Seq<char>>
    decreases bs.len(),
{
    if bs.len() == 0 {
        seq![]
    } else {
        blocks_tool_names(bs.drop_last()) + match bs.last() {
            BlockView::ToolUse { name, .. } => seq![name],
            BlockView::ToolResult { tool_name, .. } => seq![tool_name],
            BlockView::ToolResultImage { tool_name, .. } => seq![tool_name],
            _ => seq![],
        }
    }
}

/// Tool names that the messages mention, in order.
pub open spec fn tool_names(ms: Seq<MessageView>) -> Seq<Seq<char>>
    decreases ms.len(),
{
    if ms.len() == 0 {
        seq![]
    } else {
        tool_names(ms.drop_last()) + blocks_tool_names(ms.last().blocks)
    }
}

/// `x` put into the ordered sequence `r` in front of the first greater item,
/// unless `r` already holds it.
pub open spec fn insert_sorted(r: Seq<Seq<char>>, x: Seq<char>) -> Seq<Seq<char>>
    decreases r.len(),
{
    if r.len() == 0 {
        seq![x]
    } else if r[0] == x {
        r
    } else if lex_lt(x, r[0]) {
        seq![x] + r
    } else {
        seq![r[0]] + insert_sorted(r.drop_first(), x)
    }
}

/// The distinct items of `s` in ascending order.
pub open spec fn sort_dedup(s: Seq<Seq<char>>) -> Seq<Seq<char>>
    decreases s.len(),
{
    if s.len() == 0 {
        seq![]
    } else {
        insert_sorted(sort_dedup(s.drop_last()), s.last())
    }
}

/// The name of a role as the timeline writes it.
pub open spec fn role_name(r: MessageRole) -> Seq<char> {
    match r {
        MessageRole::System => "system"@,
        MessageRole::User => "user"@,
        MessageRole::Assistant => "assistant"@,
        MessageRole::Tool => "tool"@,
    }
}

/// Summary lines of each block of a message.
pub open spec fn block_summaries(bs: Seq<BlockView>) -> Seq<Seq<char>> {
    bs.map_values(|b: BlockView| block_summary(b))
}

/// The timeline line of a message.
pub open spec fn timeline_line(m: MessageView) -> Seq<char> {
    "  - "@ + role_name(m.role) + ": "@ + join(block_summaries(m.blocks), " | "@)
}

/// The scope line of a summary.
pub open spec fn scope_line(ms: Seq<MessageView>) -> Seq<char> {
    "- Scope: "@ + dec(ms.len()) + " earlier messages compacted (user="@ + dec(
        count_role(ms, MessageRole::User),
    ) + ", assistant="@ + dec(count_role(ms, MessageRole::Assistant)) + ", tool="@ + dec(
        count_role(ms, MessageRole::Tool),
    ) + ")."@
}

/// The lines of the summary of `ms`, before they are joined.
pub open spec fn summary_lines(ms: Seq<MessageView>) -> Seq<Seq<char>> {
    let tools = sort_dedup(tool_names(ms));
    let requests = recent_role_summaries(ms, MessageRole::User, 3);
    let pending = pending_work(ms);
    let urls = key_urls(ms);
    let head = seq!["<summary>"@, "Conversation summary:"@, scope_line(ms)];
    let with_tools = if tools.len() > 0 {
        head.push("- Tools mentioned: "@ + join(tools, ", "@) + "."@)
    } else {
        head
    };
    let with_requests = if requests.len() > 0 {
        with_tools.push("- Recent user requests:"@) + prefix_all("  - "@, requests)
    } else {
        with_tools
    };
    let with_pending = if pending.len() > 0 {
        with_requests.push("- Pending work:"@) + prefix_all("  - "@, pending)
    } else {
        with_requests
    };
    let with_urls = if urls.len() > 0 {
        with_pending.push("- Key URLs visited: "@ + join(urls, ", "@) + "."@)
    } else {
        with_pending
    };
    let with_current = match current_work(ms) {
        Some(w) => with_urls.push("- Current work: "@ + w),
        None => with_urls,
    };
    (with_current.push("- Key timeline:"@) + ms.map_values(|m: MessageView| timeline_line(m))).push(
        "</summary>"@,
    )
}

/// The summary of `ms`: its lines joined by newlines.
pub open spec fn summary_text(ms: Seq<MessageView>) -> Seq<char> {
    join(summary_lines(ms), "\n"@)
}

// ---------------------------------------------------------------------------
// Executable functions
// ---------------------------------------------------------------------------

/// The first text block of `m` that is not blank.
pub fn first_text_block_chars(m: &ConversationMessage) -> (r: Option<Vec<char>>)
    ensures
        opt_vview(r) == first_text(m@.blocks),
{
    let ghost bv = m@.blocks;
    let mut i: usize = 0;
    assert(bv.skip(0) == bv);
    while i < m.blocks.len()
        invariant
            0 <= i <= m.blocks.len(),
            bv == m@.blocks,
            bv.len() == m.blocks@.len(),
            first_text(bv) == first_text(bv.skip(i as int)),
        decreases m.blocks.len() - i,
    {
        assert(bv.skip(i as int)[0] == m.blocks@[i as int]@);
        assert(bv.skip(i as int).drop_first() == bv.skip(i + 1));
        match &m.blocks[i] {
            ContentBlock::Text { text } => {
                let t = chars_of(text.as_str());
                if !is_blank(&t) {
                    return Some(t);
                }
            },
            _ => {},
        }
        i += 1;
    }
    None
}

/// The summary line of a block (`summarize_block_chars`).
pub fn summarize_block_chars(b: &ContentBlock) -> (r: Vec<char>)
    ensures
        r@ == block_summary(b@),
{
    let mut raw: Vec<char> = Vec::new();
    match b {
        ContentBlock::Text { text } => {
            push_str(&mut raw, text.as_str());
        },
        ContentBlock::ToolUse { name, input, .. } => {
            push_str(&mut raw, "tool_use ");
            push_str(&mut raw, name.as_str());
            push_str(&mut raw, "(");
            push_str(&mut raw, input.as_str());
            push_str(&mut raw, ")");
        },
        ContentBlock::ToolResult { tool_name, output, is_error, .. } => {
            push_str(&mut raw, "tool_result ");
            push_str(&mut raw, tool_name.as_str());
            push_str(&mut raw, ": ");
            if *is_error {
                push_str(&mut raw, "error ");
            }
            push_str(&mut raw, output.as_str());
        },
        ContentBlock::Reasoning { .. } => {
            push_str(&mut raw, "reasoning");
        },
        ContentBlock::ToolResultImage { tool_name, caption, .. } => {
            push_str(&mut raw, "tool_result_image ");
            push_str(&mut raw, tool_name.as_str());
            push_str(&mut raw, ": ");
            push_str(&mut raw, caption.as_str());
        },
    }
    assert(raw@ =~= block_summary_raw(b@));
    ellipsize_vec(&raw, 160)
}

/// The user requests (or other role's texts) quoted by a summary
/// (`collect_recent_role_summaries_chars`).
pub fn collect_recent_role_summaries_chars(ms: &Vec<ConversationMessage>, role: MessageRole, limit: usize) -> (r: Vec<Vec<char>>)
    ensures
        vviews(r@) == recent_role_summaries(crate::message::msgs_view(ms@), role, limit as nat),
{
    let ghost mv = crate::message::msgs_view(ms@);
    let mut all: Vec<Vec<char>> = Vec::new();
    let mut i: usize = 0;
    while i < ms.len()
        invariant
            0 <= i <= ms.len(),
            mv == crate::message::msgs_view(ms@),
            vviews(all@) == role_texts(mv.take(i as int), role),
        decreases ms.len() - i,
    {
        assert(mv.take(i + 1).drop_last() == mv.take(i as int));
        assert(mv.take(i + 1).last() == ms@[i as int]@);
        if ms[i].role == role {
            match first_text_block_chars(&ms[i]) {
                Some(t) => {
                    all.push(t);
                    assert(vviews(all@) =~= role_texts(mv.take(i + 1), role));
                },
                None => {},
            }
        }
        i += 1;
    }
    assert(mv.take(ms.len() as int) == mv);
    last_n_ellipsized(&all, limit, 160)
}

/// Whether `t` mentions outstanding work.
pub fn mentions_pending_work(t: &Vec<char>) -> (r: bool)
    ensures
        r == mentions_pending(t@),
{
    let lowered = ascii_lower_vec(t);
    contains_vec(&lowered, &chars_of("todo")) || contains_vec(&lowered, &chars_of("next"))
        || contains_vec(&lowered, &chars_of("pending")) || contains_vec(
        &lowered,
        &chars_of("follow up"),
    ) || contains_vec(&lowered, &chars_of("remaining"))
}

/// The pending-work lines of a summary (`infer_pending_work_chars`).
pub fn infer_pending_work_chars(ms: &Vec<ConversationMessage>) -> (r: Vec<Vec<char>>)
    ensures
        vviews(r@) == pending_work(crate::message::msgs_view(ms@)),
{
    let ghost mv = crate::message::msgs_view(ms@);
    let mut all: Vec<Vec<char>> = Vec::new();
    let mut i: usize = 0;
    while i < ms.len()
        invariant
            0 <= i <= ms.len(),
            mv == crate::message::msgs_view(ms@),
            vviews(all@) == pending_texts(mv.take(i as int)),
        decreases ms.len() - i,
    {
        assert(mv.take(i + 1).drop_last() == mv.take(i as int));
        assert(mv.take(i + 1).last() == ms@[i as int]@);
        match first_text_block_chars(&ms[i]) {
            Some(t) => {
                if mentions_pending_work(&t) {
                    all.push(t);
                    assert(vviews(all@) =~= pending_texts(mv.take(i + 1)));
                }
            },
            None => {},
        }
        i += 1;
    }
    assert(mv.take(ms.len() as int) == mv);
    last_n_ellipsized(&all, 3, 160)
}

/// The first index `>= i` holding a URL delimiter, or the length of `s`.
fn find_url_end(s: &Vec<char>, i: usize) -> (e: usize)
    ensures
        e == url_end(s@, i as int),
        e <= s.len(),
        i <= s.len() ==> i <= e,
{
    let mut j = i;
    while j < s.len() && !(is_ws_char(s[j]) || s[j] == '"' || s[j] == '\'' || s[j] == '<' || s[j]
        == '>' || s[j] == ')' || s[j] == ']' || s[j] == '}' || s[j] == ',')
        invariant
            i <= j,
            j < s.len() ==> i <= j,
            url_end(s@, i as int) == url_end(s@, j as int),
        decreases s.len() - j,
    {
        j += 1;
    }
    if j >= s.len() {
        s.len()
    } else {
        j
    }
}

/// Drops trailing URL punctuation from `s`.
fn trim_url_tail_vec(s: &Vec<char>) -> (r: Vec<char>)
    ensures
        r@ == trim_url_tail(s@),
{
    let mut j = s.len();
    assert(s@.take(j as int) == s@);
    while j > 0 && (s[j - 1] == '.' || s[j - 1] == ',' || s[j - 1] == ';' || s[j - 1] == ':' || s[j
        - 1] == '!' || s[j - 1] == '?')
        invariant
            j <= s.len(),
            trim_url_tail(s@.take(j as int)) == trim_url_tail(s@),
        decreases j,
    {
        assert(s@.take(j as int).drop_last() == s@.take(j - 1));
        j -= 1;
    }
    slice_chars(s, 0, j)
}

/// URL candidates of a text (`extract_url_candidates_chars`).
pub fn extract_url_candidates_chars(content: &Vec<char>) -> (r: Vec<Vec<char>>)
    ensures
        vviews(r@) == urls_from(content@, 0),
{
    let http = chars_of("http://");
    let https = chars_of("https://");
    proof {
        reveal_strlit("http://");
        reveal_strlit("https://");
    }
    let mut out: Vec<Vec<char>> = Vec::new();
    let mut pos: usize = 0;
    while pos < content.len()
        invariant
            pos <= content.len(),
            http@ == "http://"@,
            https@ == "https://"@,
            http@.len() == 7,
            https@.len() == 8,
            urls_from(content@, 0) == vviews(out@) + urls_from(content@, pos as int),
        ensures
            vviews(out@) == urls_from(content@, 0),
        decreases content.len() - pos,
    {
        let a = find_vec_from(content, &http, pos);
        let b = find_vec_from(content, &https, pos);
        proof {
            lemma_find_from_some(content@, http@, pos as int);
            lemma_find_from_some(content@, https@, pos as int);
        }
        let start: usize = match (a, b) {
            (Some(x), Some(y)) => if x <= y {
                x
            } else {
                y
            },
            (Some(x), None) => x,
            (None, Some(y)) => y,
            (None, None) => {
                assert(urls_from(content@, pos as int) == Seq::<Seq<char>>::empty());
                assert(vviews(out@) + Seq::<Seq<char>>::empty() == vviews(out@));
                break ;
            },
        };
        assert(start < content.len());
        let e = find_url_end(content, start + 1);
        let piece = slice_chars(content, start, e);
        let c = trim_url_tail_vec(&piece);
        let ghost before = vviews(out@);
        if c.len() > 0 {
            out.push(c);
            assert(vviews(out@) == before.push(c@));
        }
        proof {
            let head = if c@.len() > 0 {
                seq![c@]
            } else {
                Seq::<Seq<char>>::empty()
            };
            assert(urls_from(content@, pos as int) == head + urls_from(content@, e as int));
            assert(vviews(out@) == before + head);
            assert(before + (head + urls_from(content@, e as int)) == (before + head) + urls_from(
                content@,
                e as int,
            ));
        }
        pos = e;
    }
    out
}

/// URL candidates of all text blocks of all messages, in order.
fn all_message_urls(ms: &Vec<ConversationMessage>) -> (r: Vec<Vec<char>>)
    ensures
        vviews(r@) == messages_urls(crate::message::msgs_view(ms@)),
{
    let ghost mv = crate::message::msgs_view(ms@);
    let mut out: Vec<Vec<char>> = Vec::new();
    let mut i: usize = 0;
    while i < ms.len()
        invariant
            0 <= i <= ms.len(),
            mv == crate::message::msgs_view(ms@),
            vviews(out@) == messages_urls(mv.take(i as int)),
        decreases ms.len() - i,
    {
        assert(mv.take(i + 1).drop_last() == mv.take(i as int));
        assert(mv.take(i + 1).last() == ms@[i as int]@);
        let ghost bv = ms@[i as int]@.blocks;
        let ghost base = vviews(out@);
        let mut j: usize = 0;
        while j < ms[i].blocks.len()
            invariant
                0 <= j <= ms@[i as int].blocks.len(),
                i < ms.len(),
                bv == ms@[i as int]@.blocks,
                bv.len() == ms@[i as int].blocks@.len(),
                vviews(out@) == base + blocks_urls(bv.take(j as int)),
            decreases ms@[i as int].blocks.len() - j,
        {
            assert(bv.take(j + 1).drop_last() == bv.take(j as int));
            assert(bv.take(j + 1).last() == ms@[i as int].blocks@[j as int]@);
            match &ms[i].blocks[j] {
                ContentBlock::Text { text } => {
                    let t = chars_of(text.as_str());
                    let mut found = extract_url_candidates_chars(&t);
                    let ghost before = vviews(out@);
                    let ghost add = vviews(found@);
                    out.append(&mut found);
                    assert(vviews(out@) =~= before + add);
                },
                _ => {},
            }
            assert(vviews(out@) =~= base + blocks_urls(bv.take(j + 1)));
            j += 1;
        }
        assert(bv.take(bv.len() as int) == bv);
        i += 1;
    }
    assert(mv.take(ms.len() as int) == mv);
    out
}

/// The ten most recently mentioned distinct URLs, oldest first (`collect_key_urls_chars`).
pub fn collect_key_urls_chars(ms: &Vec<ConversationMessage>) -> (r: Vec<Vec<char>>)
    ensures
        vviews(r@) == key_urls(crate::message::msgs_view(ms@)),
{
    let urls = all_message_urls(ms);
    let ghost uv = vviews(urls@);
    let mut acc: Vec<Vec<char>> = Vec::new();
    let mut j: usize = urls.len();
    assert(uv.take(j as int) == uv);
    assert(vviews(acc@) =~= Seq::<Seq<char>>::empty());
    while j > 0 && acc.len() < 10
        invariant
            j <= urls.len(),
            uv == vviews(urls@),
            collect_back(uv, seq![], 10) == collect_back(uv.take(j as int), vviews(acc@), 10),
        decreases j,
    {
        assert(uv.take(j as int).drop_last() == uv.take(j - 1));
        assert(uv.take(j as int).last() == urls@[j - 1]@);
        if !contains_vec_of(&acc, &urls[j - 1]) {
            let ghost before = vviews(acc@);
            acc.push(copy_chars(&urls[j - 1]));
            assert(vviews(acc@) == before.push(urls@[j - 1]@));
        }
        j -= 1;
    }
    proof {
        if j == 0 {
            assert(uv.take(0) == Seq::<Seq<char>>::empty());
        }
    }
    reverse_vecs(acc)
}

/// A copy of a character vector.
pub fn copy_chars(v: &Vec<char>) -> (r: Vec<char>)
    ensures
        r@ == v@,
{
    slice_chars(v, 0, v.len())
}

/// The current-work line of a summary (`infer_current_work_chars`).
pub fn infer_current_work_chars(ms: &Vec<ConversationMessage>) -> (r: Option<Vec<char>>)
    ensures
        opt_vview(r) == current_work(crate::message::msgs_view(ms@)),
{
    let ghost mv = crate::message::msgs_view(ms@);
    let mut i: usize = ms.len();
    assert(mv.take(i as int) == mv);
    while i > 0
        invariant
            i <= ms.len(),
            mv == crate::message::msgs_view(ms@),
            last_text(mv) == last_text(mv.take(i as int)),
        decreases i,
    {
        assert(mv.take(i as int).drop_last() == mv.take(i - 1));
        assert(mv.take(i as int).last() == ms@[i - 1]@);
        match first_text_block_chars(&ms[i - 1]) {
            Some(t) => {
                return Some(ellipsize_vec(&t, 200));
            },
            None => {},
        }
        i -= 1;
    }
    None
}

/// Number of messages of role `role`.
pub fn count_messages_with_role(ms: &Vec<ConversationMessage>, role: MessageRole) -> (n: usize)
    ensures
        n == count_role(crate::message::msgs_view(ms@), role),
{
    let ghost mv = crate::message::msgs_view(ms@);
    let mut n: usize = 0;
    let mut i: usize = 0;
    while i < ms.len()
        invariant
            0 <= i <= ms.len(),
            mv == crate::message::msgs_view(ms@),
            n == count_role(mv.take(i as int), role),
            n <= i,
        decreases ms.len() - i,
    {
        assert(mv.take(i + 1).drop_last() == mv.take(i as int));
        assert(mv.take(i + 1).last() == ms@[i as int]@);
        if ms[i].role == role {
            n += 1;
        }
        i += 1;
    }
    assert(mv.take(ms.len() as int) == mv);
    n
}

/// `x` inserted into the ordered vector `r` (see `insert_sorted`).
fn insert_sorted_vec(r: &Vec<Vec<char>>, x: &Vec<char>) -> (out: Vec<Vec<char>>)
    ensures
        vviews(out@) == insert_sorted(vviews(r@), x@),
{
    let ghost rv = vviews(r@);
    let mut out: Vec<Vec<char>> = Vec::new();
    let mut i: usize = 0;
    assert(rv.skip(0) == rv);
    while i < r.len()
        invariant
            0 <= i <= r.len(),
            rv == vviews(r@),
            insert_sorted(rv, x@) == vviews(out@) + insert_sorted(rv.skip(i as int), x@),
        decreases r.len() - i,
    {
        let ghost rest = rv.skip(i as int);
        assert(rest[0] == r@[i as int]@);
        assert(rest.drop_first() == rv.skip(i + 1));
        if eq_vec(&r[i], x) {
            let mut tail = copy_vecs_from(r, i);
            let ghost before = vviews(out@);
            out.append(&mut tail);
            assert(vviews(out@) =~= before + rest);
            return out;
        }
        if lex_less(x, &r[i]) {
            let ghost before = vviews(out@);
            out.push(copy_chars(x));
            let mut tail = copy_vecs_from(r, i);
            out.append(&mut tail);
            assert(vviews(out@) =~= before + (seq![x@] + rest));
            return out;
        }
        let ghost before = vviews(out@);
        out.push(copy_chars(&r[i]));
        assert(vviews(out@) =~= before + seq![rest[0]]);
        assert(before + (seq![rest[0]] + insert_sorted(rv.skip(i + 1), x@)) == (before + seq![rest[0]]) + insert_sorted(rv.skip(i + 1), x@));
        i += 1;
    }
    let ghost before = vviews(out@);
    out.push(copy_chars(x));
    assert(rv.skip(r.len() as int).len() == 0);
    assert(vviews(out@) =~= before + seq![x@]);
    out
}

/// A copy of `r[from..]`.
fn copy_vecs_from(r: &Vec<Vec<char>>, from: usize) -> (out: Vec<Vec<char>>)
    requires
        from <= r.len(),
    ensures
        vviews(out@) == vviews(r@).skip(from as int),
{
    let mut out: Vec<Vec<char>> = Vec::new();
    let mut i: usize = from;
    while i < r.len()
        invariant
            from <= i <= r.len(),
            out@.len() == i - from,
            forall|k: int| 0 <= k < i - from ==> #[trigger] out@[k]@ == r@[from + k]@,
        decreases r.len() - i,
    {
        out.push(copy_chars(&r[i]));
        i += 1;
    }
    assert(vviews(out@) =~= vviews(r@).skip(from as int));
    out
}

/// The distinct items of `s` in ascending order.
pub fn sort_dedup_vecs(s: &Vec<Vec<char>>) -> (r: Vec<Vec<char>>)
    ensures
        vviews(r@) == sort_dedup(vviews(s@)),
{
    let ghost sv = vviews(s@);
    let mut r: Vec<Vec<char>> = Vec::new();
    let mut i: usize = 0;
    while i < s.len()
        invariant
            0 <= i <= s.len(),
            sv == vviews(s@),
            vviews(r@) == sort_dedup(sv.take(i as int)),
        decreases s.len() - i,
    {
        assert(sv.take(i + 1).drop_last() == sv.take(i as int));
        assert(sv.take(i + 1).last() == s@[i as int]@);
        r = insert_sorted_vec(&r, &s[i]);
        i += 1;
    }
    assert(sv.take(s.len() as int) == sv);
    r
}

/// Tool names that the messages mention, in order.
fn collect_tool_names(ms: &Vec<ConversationMessage>) -> (r: Vec<Vec<char>>)
    ensures
        vviews(r@) == tool_names(crate::message::msgs_view(ms@)),
{
    let ghost mv = crate::message::msgs_view(ms@);
    let mut out: Vec<Vec<char>> = Vec::new();
    let mut i: usize = 0;
    while i < ms.len()
        invariant
            0 <= i <= ms.len(),
            mv == crate::message::msgs_view(ms@),
            vviews(out@) == tool_names(mv.take(i as int)),
        decreases ms.len() - i,
    {
        assert(mv.take(i + 1).drop_last() == mv.take(i as int));
        assert(mv.take(i + 1).last() == ms@[i as int]@);
        let ghost bv = ms@[i as int]@.blocks;
        let ghost base = vviews(out@);
        let mut j: usize = 0;
        while j < ms[i].blocks.len()
            invariant
                0 <= j <= ms@[i as int].blocks.len(),
                i < ms.len(),
                bv == ms@[i as int]@.blocks,
                bv.len() == ms@[i as int].blocks@.len(),
                vviews(out@) == base + blocks_tool_names(bv.take(j as int)),
            decreases ms@[i as int].blocks.len() - j,
        {
            assert(bv.take(j + 1).drop_last() == bv.take(j as int));
            assert(bv.take(j + 1).last() == ms@[i as int].blocks@[j as int]@);
            let ghost before = vviews(out@);
            match &ms[i].blocks[j] {
                ContentBlock::ToolUse { name, .. } => {
                    out.push(chars_of(name.as_str()));
                    assert(vviews(out@) =~= before.push(name@));
                },
                ContentBlock::ToolResult { tool_name, .. } => {
                    out.push(chars_of(tool_name.as_str()));
                    assert(vviews(out@) =~= before.push(tool_name@));
                },
                ContentBlock::ToolResultImage { tool_name, .. } => {
                    out.push(chars_of(tool_name.as_str()));
                    assert(vviews(out@) =~= before.push(tool_name@));
                },
                _ => {},
            }
            assert(vviews(out@) =~= base + blocks_tool_names(bv.take(j + 1)));
            j += 1;
        }
        assert(bv.take(bv.len() as int) == bv);
        i += 1;
    }
    assert(mv.take(ms.len() as int) == mv);
    out
}

/// Appends `prefix + item` to `lines` for each item.
pub fn push_prefixed(lines: &mut Vec<Vec<char>>, prefix: &str, items: &Vec<Vec<char>>)
    ensures
        vviews(final(lines)@) == vviews(old(lines)@) + prefix_all(prefix@, vviews(items@)),
{
    let ghost base = vviews(lines@);
    let mut i: usize = 0;
    while i < items.len()
        invariant
            0 <= i <= items.len(),
            vviews(lines@) == base + prefix_all(prefix@, vviews(items@).take(i as int)),
        decreases items.len() - i,
    {
        let mut l = chars_of(prefix);
        push_all(&mut l, &items[i]);
        let ghost before = vviews(lines@);
        lines.push(l);
        assert(prefix_all(prefix@, vviews(items@).take(i + 1)) =~= prefix_all(
            prefix@,
            vviews(items@).take(i as int),
        ).push(prefix@ + items@[i as int]@));
        assert(vviews(lines@) =~= before.push(prefix@ + items@[i as int]@));
        i += 1;
    }
    assert(vviews(items@).take(items.len() as int) == vviews(items@));
}

/// The timeline name of a role.
pub fn role_label(r: MessageRole) -> (s: &'static str)
    ensures
        s@ == role_name(r),
{
    match r {
        MessageRole::System => "system",
        MessageRole::User => "user",
        MessageRole::Assistant => "assistant",
        MessageRole::Tool => "tool",
    }
}

/// The timeline line of a message.
fn timeline_line_of(m: &ConversationMessage) -> (l: Vec<char>)
    ensures
        l@ == timeline_line(m@),
{
    let mut parts: Vec<Vec<char>> = Vec::new();
    let mut i: usize = 0;
    while i < m.blocks.len()
        invariant
            0 <= i <= m.blocks.len(),
            parts@.len() == i,
            forall|k: int| 0 <= k < i ==> #[trigger] parts@[k]@ == block_summary(m.blocks@[k]@),
        decreases m.blocks.len() - i,
    {
        parts.push(summarize_block_chars(&m.blocks[i]));
        i += 1;
    }
    assert(vviews(parts@) =~= block_summaries(m@.blocks));
    let mut l = chars_of("  - ");
    push_str(&mut l, role_label(m.role));
    push_str(&mut l, ": ");
    let j = join_vecs(&parts, " | ");
    push_all(&mut l, &j);
    l
}

/// The scope line of a summary.
fn scope_line_of(ms: &Vec<ConversationMessage>) -> (l: Vec<char>)
    ensures
        l@ == scope_line(crate::message::msgs_view(ms@)),
{
    let mut l = chars_of("- Scope: ");
    push_dec(&mut l, ms.len() as u64);
    push_str(&mut l, " earlier messages compacted (user=");
    push_dec(&mut l, count_messages_with_role(ms, MessageRole::User) as u64);
    push_str(&mut l, ", assistant=");
    push_dec(&mut l, count_messages_with_role(ms, MessageRole::Assistant) as u64);
    push_str(&mut l, ", tool=");
    push_dec(&mut l, count_messages_with_role(ms, MessageRole::Tool) as u64);
    push_str(&mut l, ").");
    l
}

/// The mechanical summary of `ms`: scope, tools, recent requests, pending
/// work, key URLs, current work and a timeline of every message.
#[verifier::spinoff_prover]
#[verifier::rlimit(60)]
pub fn summarize_messages(ms: &Vec<ConversationMessage>) -> (r: String)
    ensures
        r@ == summary_text(crate::message::msgs_view(ms@)),
{
    let ghost mv = crate::message::msgs_view(ms@);
    let tools = sort_dedup_vecs(&collect_tool_names(ms));
    let requests = collect_recent_role_summaries_chars(ms, MessageRole::User, 3);
    let pending = infer_pending_work_chars(ms);
    let urls = collect_key_urls_chars(ms);
    let current = infer_current_work_chars(ms);

    let mut lines: Vec<Vec<char>> = Vec::new();
    lines.push(chars_of("<summary>"));
    lines.push(chars_of("Conversation summary:"));
    lines.push(scope_line_of(ms));
    let ghost head = seq!["<summary>"@, "Conversation summary:"@, scope_line(mv)];
    assert(vviews(lines@) =~= head);

    let ghost with_tools = if vviews(tools@).len() > 0 {
        head.push("- Tools mentioned: "@ + join(vviews(tools@), ", "@) + "."@)
    } else {
        head
    };
    if tools.len() > 0 {
        let mut l = chars_of("- Tools mentioned: ");
        let j = join_vecs(&tools, ", ");
        push_all(&mut l, &j);
        push_str(&mut l, ".");
        let ghost before = vviews(lines@);
        lines.push(l);
        assert(vviews(lines@) =~= before.push(l@));
    }
    assert(vviews(lines@) == with_tools);

    let ghost with_requests = if vviews(requests@).len() > 0 {
        with_tools.push("- Recent user requests:"@) + prefix_all("  - "@, vviews(requests@))
    } else {
        with_tools
    };
    if requests.len() > 0 {
        let ghost before = vviews(lines@);
        lines.push(chars_of("- Recent user requests:"));
        assert(vviews(lines@) =~= before.push("- Recent user requests:"@));
        push_prefixed(&mut lines, "  - ", &requests);
    }
    assert(vviews(lines@) == with_requests);

    let ghost with_pending = if vviews(pending@).len() > 0 {
        with_requests.push("- Pending work:"@) + prefix_all("  - "@, vviews(pending@))
    } else {
        with_requests
    };
    if pending.len() > 0 {
        let ghost before = vviews(lines@);
        lines.push(chars_of("- Pending work:"));
        assert(vviews(lines@) =~= before.push("- Pending work:"@));
        push_prefixed(&mut lines, "  - ", &pending);
    }
    assert(vviews(lines@) == with_pending);

    let ghost with_urls = if vviews(urls@).len() > 0 {
        with_pending.push("- Key URLs visited: "@ + join(vviews(urls@), ", "@) + "."@)
    } else {
        with_pending
    };
    if urls.len() > 0 {
        let mut l = chars_of("- Key URLs visited: ");
        let j = join_vecs(&urls, ", ");
        push_all(&mut l, &j);
        push_str(&mut l, ".");
        let ghost before = vviews(lines@);
        lines.push(l);
        assert(vviews(lines@) =~= before.push(l@));
    }
    assert(vviews(lines@) == with_urls);

    let ghost with_current = match current_work(mv) {
        Some(w) => with_urls.push("- Current work: "@ + w),
        None => with_urls,
    };
    match current {
        Some(w) => {
            let mut l = chars_of("- Current work: ");
            push_all(&mut l, &w);
            let ghost before = vviews(lines@);
            lines.push(l);
            assert(vviews(lines@) =~= before.push(l@));
        },
        None => {},
    }
    assert(vviews(lines@) == with_current);

    let ghost before_timeline = vviews(lines@);
    lines.push(chars_of("- Key timeline:"));
    assert(vviews(lines@) =~= before_timeline.push("- Key timeline:"@));
    let ghost base = vviews(lines@);
    let mut i: usize = 0;
    while i < ms.len()
        invariant
            0 <= i <= ms.len(),
            mv == crate::message::msgs_view(ms@),
            vviews(lines@) == base + mv.take(i as int).map_values(|m: MessageView| timeline_line(m)),
        decreases ms.len() - i,
    {
        let l = timeline_line_of(&ms[i]);
        let ghost before = vviews(lines@);
        lines.push(l);
        assert(mv[i as int] == ms@[i as int]@);
        assert(mv.take(i + 1).map_values(|m: MessageView| timeline_line(m)) =~= mv.take(
            i as int,
        ).map_values(|m: MessageView| timeline_line(m)).push(timeline_line(mv[i as int])));
        assert(vviews(lines@) =~= before.push(l@));
        i += 1;
    }
    assert(mv.take(ms.len() as int) == mv);
    let ghost before_end = vviews(lines@);
    lines.push(chars_of("</summary>"));
    assert(vviews(lines@) =~= before_end.push("</summary>"@));
    assert(vviews(lines@) == summary_lines(mv));
    let joined = join_vecs(&lines, "\n");
    string_of(&joined)
}

// ---------------------------------------------------------------------------
// String-typed entry points
// ---------------------------------------------------------------------------

/// The first text block of `message` that is not blank.
pub fn first_text_block(message: &ConversationMessage) -> (r: Option<String>)
    ensures
        crate::message::opt_view(r) == first_text(message@.blocks),
{
    match first_text_block_chars(message) {
        Some(t) => Some(string_of(&t)),
        None => None,
    }
}

/// `content`, cut to `max_chars` characters followed by `…` when it is longer.
pub fn truncate_summary(content: &str, max_chars: usize) -> (r: String)
    ensures
        r@ == ellipsize(content@, max_chars as nat),
{
    let c = chars_of(content);
    string_of(&ellipsize_vec(&c, max_chars))
}

/// The timeline entry of a block: a one-line rendering cut to 160 characters.
pub fn summarize_block(block: &ContentBlock) -> (r: String)
    ensures
        r@ == block_summary(block@),
{
    string_of(&summarize_block_chars(block))
}

/// The last `limit` non-blank first texts of messages of role `role`, oldest
/// first, each cut to 160 characters.
pub fn collect_recent_role_summaries(
    messages: &Vec<ConversationMessage>,
    role: MessageRole,
    limit: usize,
) -> (r: Vec<String>)
    ensures
        crate::text::views(r@) == recent_role_summaries(
            crate::message::msgs_view(messages@),
            role,
            limit as nat,
        ),
{
    strings_all(&collect_recent_role_summaries_chars(messages, role, limit))
}

/// The last three message texts that mention outstanding work (todo, next,
/// pending, follow up, remaining), oldest first, each cut to 160 characters.
pub fn infer_pending_work(messages: &Vec<ConversationMessage>) -> (r: Vec<String>)
    ensures
        crate::text::views(r@) == pending_work(crate::message::msgs_view(messages@)),
{
    strings_all(&infer_pending_work_chars(messages))
}

/// The `http://` and `https://` URLs mentioned in `content`, in order.
pub fn extract_url_candidates(content: &str) -> (r: Vec<String>)
    ensures
        crate::text::views(r@) == urls_from(content@, 0),
{
    let c = chars_of(content);
    strings_all(&extract_url_candidates_chars(&c))
}

/// The ten most recently mentioned distinct URLs of the text blocks, oldest first.
pub fn collect_key_urls(messages: &Vec<ConversationMessage>) -> (r: Vec<String>)
    ensures
        crate::text::views(r@) == key_urls(crate::message::msgs_view(messages@)),
{
    strings_all(&collect_key_urls_chars(messages))
}

/// The last non-blank message text, cut to 200 characters.
pub fn infer_current_work(messages: &Vec<ConversationMessage>) -> (r: Option<String>)
    ensures
        crate::message::opt_view(r) == current_work(crate::message::msgs_view(messages@)),
{
    match infer_current_work_chars(messages) {
        Some(t) => Some(string_of(&t)),
        None => None,
    }
}


/// A message that counts as a user request: a user message with a
/// non-blank text block.
pub open spec fn is_user_request(m: MessageView) -> bool {
    m.role == MessageRole::User && first_text(m.blocks) is Some
}

/// Where the texts `role_texts` collects come from: increasing positions of
/// messages of that role with a non-blank text, each such message once.
proof fn lemma_role_text_positions(ms: Seq<MessageView>, role: MessageRole) -> (pos: Seq<int>)
    ensures
        pos.len() == role_texts(ms, role).len(),
        forall|j: int|
            0 <= j < pos.len() ==> 0 <= #[trigger] pos[j] < ms.len() && ms[pos[j]].role == role
                && first_text(ms[pos[j]].blocks) == Some(role_texts(ms, role)[j]),
        forall|a: int, b: int| 0 <= a < b < pos.len() ==> #[trigger] pos[a] < #[trigger] pos[b],
        forall|m: int|
            0 <= m < ms.len() && #[trigger] ms[m].role == role && first_text(ms[m].blocks) is Some
                ==> exists|j: int| 0 <= j < pos.len() && pos[j] == m,
    decreases ms.len(),
{
    if ms.len() == 0 {
        Seq::empty()
    } else {
        let front = ms.drop_last();
        let p0 = lemma_role_text_positions(front, role);
        let last = ms.len() - 1;
        if ms.last().role == role && first_text(ms.last().blocks) is Some {
            let pos = p0.push(last);
            assert forall|m: int|
                0 <= m < ms.len() && #[trigger] ms[m].role == role && first_text(ms[m].blocks) is Some
                    implies exists|j: int| 0 <= j < pos.len() && pos[j] == m by {
                if m == last {
                    assert(pos[pos.len() - 1] == m);
                } else {
                    assert(front[m] == ms[m]);
                    let j = choose|j: int| 0 <= j < p0.len() && p0[j] == m;
                    assert(pos[j] == m);
                }
            }
            pos
        } else {
            assert forall|m: int|
                0 <= m < ms.len() && #[trigger] ms[m].role == role && first_text(ms[m].blocks) is Some
                    implies exists|j: int| 0 <= j < p0.len() && p0[j] == m by {
                assert(m != last);
                assert(front[m] == ms[m]);
            }
            p0
        }
    }
}

/// The user requests of a summary: when some summarized message is a user
/// request, the summary has a "Recent user requests" section (after the
/// scope line and the tools line, if any) whose lines are the texts, cut to
/// 160 characters, of the last user requests (at most three), in order;
/// fewer than three only when there are no more. When none is, the line in
/// that place is a different one.
pub proof fn lemma_summary_user_requests(ms: Seq<MessageView>)
    ensures
        ({
            let lines = summary_lines(ms);
            let h: int = if sort_dedup(tool_names(ms)).len() > 0 { 4 } else { 3 };
            &&& (exists|i: int| 0 <= i < ms.len() && #[trigger] is_user_request(ms[i])) ==> {
                &&& lines[h] == "- Recent user requests:"@
                &&& exists|pos: Seq<int>|
                    {
                        &&& 1 <= pos.len() <= 3
                        &&& forall|a: int, b: int|
                            0 <= a < b < pos.len() ==> #[trigger] pos[a] < #[trigger] pos[b]
                        &&& forall|j: int|
                            0 <= j < pos.len() ==> 0 <= #[trigger] pos[j] < ms.len()
                                && is_user_request(ms[pos[j]]) && lines[h + 1 + j] == "  - "@
                                + ellipsize(first_text(ms[pos[j]].blocks)->0, 160)
                        &&& forall|m: int|
                            pos[0] < m < ms.len() && #[trigger] is_user_request(ms[m])
                                ==> pos.contains(m)
                        &&& pos.len() < 3 ==> forall|m: int|
                            0 <= m < pos[0] ==> !#[trigger] is_user_request(ms[m])
                    }
            }
            &&& (forall|i: int| 0 <= i < ms.len() ==> !#[trigger] is_user_request(ms[i]))
                ==> lines[h] != "- Recent user requests:"@
        }),
{
    let tools = sort_dedup(tool_names(ms));
    let requests = recent_role_summaries(ms, MessageRole::User, 3);
    let pending = pending_work(ms);
    let urls = key_urls(ms);
    let head = seq!["<summary>"@, "Conversation summary:"@, scope_line(ms)];
    let with_tools = if tools.len() > 0 {
        head.push("- Tools mentioned: "@ + join(tools, ", "@) + "."@)
    } else {
        head
    };
    let with_requests = if requests.len() > 0 {
        with_tools.push("- Recent user requests:"@) + prefix_all("  - "@, requests)
    } else {
        with_tools
    };
    let with_pending = if pending.len() > 0 {
        with_requests.push("- Pending work:"@) + prefix_all("  - "@, pending)
    } else {
        with_requests
    };
    let with_urls = if urls.len() > 0 {
        with_pending.push("- Key URLs visited: "@ + join(urls, ", "@) + "."@)
    } else {
        with_pending
    };
    let with_current = match current_work(ms) {
        Some(w) => with_urls.push("- Current work: "@ + w),
        None => with_urls,
    };
    let lines = summary_lines(ms);
    let h: int = if tools.len() > 0 { 4 } else { 3 };
    assert(with_tools.len() == h);
    assert(lines == (with_current.push("- Key timeline:"@) + ms.map_values(
        |m: MessageView| timeline_line(m),
    )).push("</summary>"@));
    assert forall|x: int| 0 <= x < with_requests.len() implies #[trigger] lines[x] == with_requests[x] by {
        assert(with_pending[x] == with_requests[x]);
        assert(with_urls[x] == with_pending[x]);
        assert(with_current[x] == with_urls[x]);
    }
    let rt = role_texts(ms, MessageRole::User);
    let pos = lemma_role_text_positions(ms, MessageRole::User);
    if exists|i: int| 0 <= i < ms.len() && #[trigger] is_user_request(ms[i]) {
        let i = choose|i: int| 0 <= i < ms.len() && #[trigger] is_user_request(ms[i]);
        assert(ms[i].role == MessageRole::User && first_text(ms[i].blocks) is Some);
        assert(rt.len() > 0);
        let n = rt.len() as int;
        let k: int = if n <= 3 { n } else { 3 };
        let start = n - k;
        assert(last_n(rt, 3) =~= rt.skip(start));
        assert(requests.len() == k);
        let pos2 = pos.skip(start);
        assert forall|j: int| 0 <= j < pos2.len() implies 0 <= #[trigger] pos2[j] < ms.len()
            && is_user_request(ms[pos2[j]]) && lines[h + 1 + j] == "  - "@ + ellipsize(
            first_text(ms[pos2[j]].blocks)->0,
            160,
        ) by {
            assert(pos2[j] == pos[start + j]);
            assert(with_requests[h + 1 + j] == "  - "@ + requests[j]);
            assert(requests[j] == ellipsize(rt[start + j], 160));
            assert(lines[h + 1 + j] == with_requests[h + 1 + j]);
        }
        assert forall|a: int, b: int| 0 <= a < b < pos2.len() implies #[trigger] pos2[a]
            < #[trigger] pos2[b] by {
            assert(pos[start + a] < pos[start + b]);
        }
        assert forall|m: int| pos2[0] < m < ms.len() && #[trigger] is_user_request(ms[m]) implies pos2.contains(m) by {
            assert(ms[m].role == MessageRole::User);
            let j = choose|j: int| 0 <= j < pos.len() && pos[j] == m;
            if j < start {
                assert(pos[j] < pos[start]);
            }
            assert(pos2[j - start] == m);
        }
        if pos2.len() < 3 {
            assert(start == 0);
            assert forall|m: int| 0 <= m < pos2[0] implies !#[trigger] is_user_request(ms[m]) by {
                if is_user_request(ms[m]) {
                    assert(ms[m].role == MessageRole::User);
                    let j = choose|j: int| 0 <= j < pos.len() && pos[j] == m;
                    if j > 0 {
                        assert(pos[0] < pos[j]);
                    }
                }
            }
        }
        assert(lines[h] == with_requests[h]);
    } else {
        assert(rt.len() == 0) by {
            if rt.len() > 0 {
                assert(is_user_request(ms[pos[0]]));
            }
        }
        assert(requests.len() == 0);
        reveal_strlit("- Recent user requests:");
        reveal_strlit("- Pending work:");
        reveal_strlit("- Key URLs visited: ");
        reveal_strlit("- Current work: ");
        reveal_strlit("- Key timeline:");
        reveal_strlit("</summary>");
        reveal_strlit("R");
        assert("- Recent user requests:"@[2] == 'R');
        if pending.len() > 0 {
            assert(lines[h] == "- Pending work:"@);
        } else if urls.len() > 0 {
            assert(lines[h] == with_urls[h]);
            assert(lines[h][2] == 'K');
        } else if current_work(ms) is Some {
            assert(lines[h] == with_current[h]);
            assert(lines[h][2] == 'C');
        } else {
            assert(lines[h] == "- Key timeline:"@);
        }
    }
}

} // verus!
