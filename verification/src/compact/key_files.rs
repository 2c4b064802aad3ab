//! The source files a conversation mentions, for the summary of a compaction.
use vstd::prelude::*;

use super::summarize::{sort_dedup, sort_dedup_vecs};
use crate::message::{BlockView, ContentBlock, ConversationMessage, MessageView};
use crate::paths::{extension_of, path_extension};
use crate::text::{
    ascii_lower_seq, ascii_lower_vec, chars_of, contains, contains_vec, eq_str, is_ws, is_ws_char,
    slice_chars, strings_all, vviews,
};

verus! {

/// Number of files a summary lists at most.
pub const MAX_KEY_FILES: usize = 8;

/// Punctuation stripped from both ends of a word before it is taken as a path.
pub open spec fn is_path_punct(c: char) -> bool {
    c == ',' || c == '.' || c == ':' || c == ';' || c == ')' || c == '(' || c == '"' || c == '\''
        || c == '`'
}

/// The words of `s`: maximal runs of non-whitespace (`str::split_whitespace`).
pub open spec fn words(s: Seq<char>) -> Seq<Seq<char>>
    decreases s.len(),
{
    if s.len() == 0 {
        seq![]
    } else {
        let w = words(s.drop_last());
        let c = s.last();
        if is_ws(c) {
            w
        } else if s.len() >= 2 && !is_ws(s[s.len() - 2]) && w.len() > 0 {
            w.update(w.len() - 1, w.last().push(c))
        } else {
            w.push(seq![c])
        }
    }
}

/// `s` without leading punctuation.
pub open spec fn trim_punct_start(s: Seq<char>) -> Seq<char>
    decreases s.len(),
{
    if s.len() > 0 && is_path_punct(s[0]) {
        trim_punct_start(s.drop_first())
    } else {
        s
    }
}

/// `s` without trailing punctuation.
pub open spec fn trim_punct_end(s: Seq<char>) -> Seq<char>
    decreases s.len(),
{
    if s.len() > 0 && is_path_punct(s.last()) {
        trim_punct_end(s.drop_last())
    } else {
        s
    }
}

/// `s` without punctuation at either end (`str::trim_matches`).
pub open spec fn trim_punct(s: Seq<char>) -> Seq<char> {
    trim_punct_end(trim_punct_start(s))
}

/// The extensions of files worth listing, in lowercase.
pub open spec fn interesting_extensions() -> Seq<Seq<char>> {
    seq!["rs"@, "ts"@, "tsx"@, "js"@, "json"@, "md"@]
}

/// The path has an extension worth listing (ASCII case ignored).
pub open spec fn has_interesting_extension(p: Seq<char>) -> bool {
    match path_extension(p) {
        Some(e) => interesting_extensions().contains(ascii_lower_seq(e)),
        None => false,
    }
}

/// A word taken as a path, if it is one: trimmed of punctuation, holding a
/// `/`, with an interesting extension.
pub open spec fn file_candidate(word: Seq<char>) -> Option<Seq<char>> {
    let c = trim_punct(word);
    if contains(c, "/"@) && has_interesting_extension(c) {
        Some(c)
    } else {
        None
    }
}

/// The paths among `ws`, in order.
pub open spec fn candidates_of(ws: Seq<Seq<char>>) -> Seq<Seq<char>>
    decreases ws.len(),
{
    if ws.len() == 0 {
        seq![]
    } else {
        candidates_of(ws.drop_last()) + match file_candidate(ws.last()) {
            Some(c) => seq![c],
            None => seq![],
        }
    }
}

/// The text of a block that is searched for paths.
pub open spec fn searched_text(b: BlockView) -> Seq<char> {
    match b {
        BlockView::Text { text } => text,
        BlockView::ToolUse { input, .. } => input,
        BlockView::ToolResult { output, .. } => output,
        BlockView::Reasoning { data } => data,
        _ => seq![],
    }
}

/// The paths mentioned in the blocks, in order.
pub open spec fn blocks_files(bs: Seq<BlockView>) -> Seq<Seq<char>>
    decreases bs.len(),
{
    if bs.len() == 0 {
        seq![]
    } else {
        blocks_files(bs.drop_last()) + candidates_of(words(searched_text(bs.last())))
    }
}

/// The paths mentioned in the messages, in order.
pub open spec fn messages_files(ms: Seq<MessageView>) -> Seq<Seq<char>>
    decreases ms.len(),
{
    if ms.len() == 0 {
        seq![]
    } else {
        messages_files(ms.drop_last()) + blocks_files(ms.last().blocks)
    }
}

/// The first paths, in ascending order and each once, that the messages mention.
pub open spec fn key_files(ms: Seq<MessageView>) -> Seq<Seq<char>> {
    let all = sort_dedup(messages_files(ms));
    all.take(if all.len() <= MAX_KEY_FILES {
        all.len() as int
    } else {
        MAX_KEY_FILES as int
    })
}

/// The words of `s`.
pub(crate) fn split_words(s: &Vec<char>) -> (r: Vec<Vec<char>>)
    ensures
        vviews(r@) == words(s@),
{
    let mut done: Vec<Vec<char>> = Vec::new();
    let mut cur: Vec<char> = Vec::new();
    let mut i: usize = 0;
    assert(s@.take(0) =~= Seq::<char>::empty());
    while i < s.len()
        invariant
            0 <= i <= s.len(),
            (cur.len() > 0) == (i > 0 && !is_ws(s@[i - 1])),
            words(s@.take(i as int)) == if cur.len() > 0 {
                vviews(done@).push(cur@)
            } else {
                vviews(done@)
            },
        decreases s.len() - i,
    {
        let c = s[i];
        let ghost t = s@.take(i + 1);
        assert(t.drop_last() == s@.take(i as int));
        assert(t.last() == c);
        let ghost d0 = vviews(done@);
        let ghost c0 = cur@;
        if is_ws_char(c) {
            if cur.len() > 0 {
                let w = cur;
                done.push(w);
                cur = Vec::new();
                assert(vviews(done@) =~= d0.push(c0));
            }
        } else {
            let had = cur.len() > 0;
            if had {
                assert(s@[i - 1] == t[t.len() - 2]);
            }
            cur.push(c);
            proof {
                if had {
                    assert(d0.push(c0).update(d0.len() as int, c0.push(c)) =~= d0.push(cur@));
                } else {
                    if i > 0 {
                        assert(s@[i - 1] == t[t.len() - 2]);
                    }
                    assert(cur@ =~= seq![c]);
                }
            }
        }
        i += 1;
    }
    assert(s@.take(s.len() as int) == s@);
    if cur.len() > 0 {
        let ghost d0 = vviews(done@);
        let w = cur;
        done.push(w);
        assert(vviews(done@) =~= d0.push(w@));
    }
    done
}

/// `w` without punctuation at either end.
fn trim_punct_vec(w: &Vec<char>) -> (r: Vec<char>)
    ensures
        r@ == trim_punct(w@),
{
    let mut a: usize = 0;
    assert(w@.skip(0) == w@);
    while a < w.len() && (w[a] == ',' || w[a] == '.' || w[a] == ':' || w[a] == ';' || w[a] == ')'
        || w[a] == '(' || w[a] == '"' || w[a] == '\'' || w[a] == '`')
        invariant
            0 <= a <= w.len(),
            trim_punct_start(w@) == trim_punct_start(w@.skip(a as int)),
        decreases w.len() - a,
    {
        assert(w@.skip(a as int).drop_first() == w@.skip(a + 1));
        a += 1;
    }
    let t = slice_chars(w, a, w.len());
    assert(t@ == trim_punct_start(w@));
    let mut b: usize = t.len();
    assert(t@.take(b as int) == t@);
    while b > 0 && (t[b - 1] == ',' || t[b - 1] == '.' || t[b - 1] == ':' || t[b - 1] == ';'
        || t[b - 1] == ')' || t[b - 1] == '(' || t[b - 1] == '"' || t[b - 1] == '\'' || t[b - 1]
        == '`')
        invariant
            0 <= b <= t.len(),
            trim_punct_end(t@) == trim_punct_end(t@.take(b as int)),
        decreases b,
    {
        assert(t@.take(b as int).drop_last() == t@.take(b - 1));
        b -= 1;
    }
    slice_chars(&t, 0, b)
}

/// Whether the path `p` has an interesting extension.
fn interesting(p: &Vec<char>) -> (r: bool)
    ensures
        r == has_interesting_extension(p@),
{
    let ps = crate::text::string_of(p);
    match extension_of(ps.as_str()) {
        Some(e) => {
            let l = ascii_lower_vec(&chars_of(e.as_str()));
            proof {
                reveal_strlit("rs");
                reveal_strlit("ts");
                reveal_strlit("tsx");
                reveal_strlit("js");
                reveal_strlit("json");
                reveal_strlit("md");
            }
            let r = eq_str(&l, "rs") || eq_str(&l, "ts") || eq_str(&l, "tsx") || eq_str(&l, "js")
                || eq_str(&l, "json") || eq_str(&l, "md");
            proof {
                let ex = interesting_extensions();
                if r {
                    if l@ == "rs"@ {
                        assert(ex[0] == l@);
                    } else if l@ == "ts"@ {
                        assert(ex[1] == l@);
                    } else if l@ == "tsx"@ {
                        assert(ex[2] == l@);
                    } else if l@ == "js"@ {
                        assert(ex[3] == l@);
                    } else if l@ == "json"@ {
                        assert(ex[4] == l@);
                    } else {
                        assert(ex[5] == l@);
                    }
                } else {
                    assert forall|k: int| 0 <= k < ex.len() implies ex[k] != l@ by {}
                }
            }
            r
        },
        None => false,
    }
}

/// Appends the paths among the words of `text` to `out`.
fn push_candidates(out: &mut Vec<Vec<char>>, text: &str)
    ensures
        vviews(final(out)@) == vviews(old(out)@) + candidates_of(words(text@)),
{
    let ws = split_words(&chars_of(text));
    let ghost wv = vviews(ws@);
    let ghost o0 = vviews(out@);
    let mut i: usize = 0;
    assert(wv.take(0) =~= Seq::<Seq<char>>::empty());
    assert(vviews(out@) =~= o0 + candidates_of(wv.take(0)));
    let slash = chars_of("/");
    while i < ws.len()
        invariant
            0 <= i <= ws.len(),
            wv == vviews(ws@),
            wv == words(text@),
            slash@ == "/"@,
            vviews(out@) == o0 + candidates_of(wv.take(i as int)),
        decreases ws.len() - i,
    {
        assert(wv.take(i + 1).drop_last() == wv.take(i as int));
        assert(wv.take(i + 1).last() == ws@[i as int]@);
        let c = trim_punct_vec(&ws[i]);
        let ghost before = vviews(out@);
        if contains_vec(&c, &slash) && interesting(&c) {
            out.push(c);
            assert(vviews(out@) =~= before + seq![trim_punct(ws@[i as int]@)]);
        } else {
            assert(vviews(out@) =~= before + Seq::<Seq<char>>::empty());
        }
        i += 1;
    }
    assert(wv.take(ws.len() as int) == wv);
}

/// Up to eight source files that the messages mention (`.rs`, `.ts`, `.tsx`,
/// `.js`, `.json`, `.md` paths with a `/`), in ascending order, each once.
pub fn collect_key_files(messages: &Vec<ConversationMessage>) -> (r: Vec<String>)
    ensures
        crate::text::views(r@) == key_files(crate::message::msgs_view(messages@)),
{
    let ghost mv = crate::message::msgs_view(messages@);
    let mut all: Vec<Vec<char>> = Vec::new();
    let mut i: usize = 0;
    assert(mv.take(0) =~= Seq::<MessageView>::empty());
    assert(vviews(all@) =~= messages_files(mv.take(0)));
    while i < messages.len()
        invariant
            0 <= i <= messages.len(),
            mv == crate::message::msgs_view(messages@),
            vviews(all@) == messages_files(mv.take(i as int)),
        decreases messages.len() - i,
    {
        assert(mv.take(i + 1).drop_last() == mv.take(i as int));
        assert(mv.take(i + 1).last() == messages@[i as int]@);
        let m = &messages[i];
        let ghost bv = m@.blocks;
        let ghost before = vviews(all@);
        let mut j: usize = 0;
        assert(bv.take(0) =~= Seq::<BlockView>::empty());
        assert(vviews(all@) =~= before + blocks_files(bv.take(0)));
        while j < m.blocks.len()
            invariant
                0 <= j <= m.blocks.len(),
                bv == m@.blocks,
                bv.len() == m.blocks@.len(),
                forall|k: int| 0 <= k < bv.len() ==> bv[k] == #[trigger] m.blocks@[k]@,
                vviews(all@) == before + blocks_files(bv.take(j as int)),
            decreases m.blocks.len() - j,
        {
            assert(bv.take(j + 1).drop_last() == bv.take(j as int));
            assert(bv.take(j + 1).last() == m.blocks@[j as int]@);
            let ghost b0 = vviews(all@);
            match &m.blocks[j] {
                ContentBlock::Text { text } => push_candidates(&mut all, text.as_str()),
                ContentBlock::ToolUse { input, .. } => push_candidates(&mut all, input.as_str()),
                ContentBlock::ToolResult { output, .. } => push_candidates(
                    &mut all,
                    output.as_str(),
                ),
                ContentBlock::Reasoning { data } => push_candidates(&mut all, data.as_str()),
                _ => {
                    assert(words(Seq::<char>::empty()) =~= Seq::<Seq<char>>::empty());
                    assert(candidates_of(Seq::<Seq<char>>::empty()) =~= Seq::<Seq<char>>::empty());
                },
            }
            assert(vviews(all@) =~= before + blocks_files(bv.take(j + 1)));
            j += 1;
        }
        assert(bv.take(m.blocks.len() as int) == bv);
        i += 1;
    }
    assert(mv.take(messages.len() as int) == mv);
    let sorted = sort_dedup_vecs(&all);
    let n = if sorted.len() <= MAX_KEY_FILES {
        sorted.len()
    } else {
        MAX_KEY_FILES
    };
    let mut kept: Vec<Vec<char>> = Vec::new();
    let mut k: usize = 0;
    while k < n
        invariant
            0 <= k <= n <= sorted.len(),
            vviews(kept@) == vviews(sorted@).take(k as int),
        decreases n - k,
    {
        let ghost before = vviews(kept@);
        kept.push(sorted[k].clone());
        assert(vviews(kept@) =~= before.push(sorted@[k as int]@));
        assert(vviews(sorted@).take(k + 1) =~= vviews(sorted@).take(k as int).push(sorted@[k as int]@));
        k += 1;
    }
    strings_all(&kept)
}

} // verus!
