//! Building a memory episode from a finished conversation.
use vstd::prelude::*;

use super::evidence_aggregator::no_duplicates;

use super::{MemoryEpisode, MemoryEpisodeResult};
use crate::message::{msgs_view, opt_view, BlockView, ContentBlock, ConversationMessage, MessageView};
use crate::text::{
    chars_of, matches_at, push_all, push_str, slice_chars, string_of, strings_all, views,
    vviews, contains_vec_of, match_at,
};

verus! {

/// What a finished task hands to `build_memory_episode`.
pub struct MemoryEpisodeBuildInput<'a> {
    pub id: String,
    pub task_class: Option<String>,
    pub user_goal: String,
    pub result: MemoryEpisodeResult,
    pub output_summary: Option<String>,
    pub messages: &'a [ConversationMessage],
    pub created_at_epoch_secs: u64,
    pub promote_candidate: bool,
}

/// Limits on what an episode keeps.
#[derive(Copy, Clone)]
pub struct MemoryEpisodeBuildConfig {
    pub max_route_steps: usize,
    pub max_domains: usize,
    pub max_tools: usize,
    pub max_output_summary_chars: usize,
}

impl Default for MemoryEpisodeBuildConfig {
    fn default() -> (c: Self)
        ensures
            c.max_route_steps == 32,
            c.max_domains == 16,
            c.max_tools == 16,
            c.max_output_summary_chars == 500,
    {
        MemoryEpisodeBuildConfig {
            max_route_steps: 32,
            max_domains: 16,
            max_tools: 16,
            max_output_summary_chars: 500,
        }
    }
}

// ---------------------------------------------------------------------------
// Specifications
// ---------------------------------------------------------------------------

/// The lowercase form of a text, as `str::to_lowercase` gives it (Unicode case mapping).
pub uninterp spec fn lowercase(s: Seq<char>) -> Seq<char>;

/// The first `max` characters of `s` (all of `s` when it is shorter).
pub open spec fn take_chars(s: Seq<char>, max: nat) -> Seq<char> {
    if s.len() <= max {
        s
    } else {
        s.take(max as int)
    }
}

/// Characters that end a host name.
pub open spec fn is_host_boundary(c: char) -> bool {
    c == '/' || c == '?' || c == '#' || c == ',' || c == ';' || c == ' ' || c == '\t' || c == '\n'
        || c == '\r' || c == '"' || c == '\'' || c == ')' || c == ']' || c == '>' || c == '}'
}

/// The first index `>= j` holding a host boundary, or the length of `s`.
pub open spec fn host_end(s: Seq<char>, j: int) -> int
    decreases s.len() - j,
{
    if j >= s.len() {
        s.len() as int
    } else if is_host_boundary(s[j]) {
        j
    } else {
        host_end(s, j + 1)
    }
}

/// The hosts of the `http://` and `https://` URLs of `s` from index `i` on.
pub open spec fn hosts_from(s: Seq<char>, i: int) -> Seq<Seq<char>>
    decreases s.len() - i,
{
    if i < 0 || i >= s.len() {
        seq![]
    } else if match_at(s, "https://"@, i) || match_at(s, "http://"@, i) {
        let hs = if match_at(s, "https://"@, i) {
            i + 8
        } else {
            i + 7
        };
        if hs >= s.len() {
            seq![]
        } else {
            let e = host_end(s, hs);
            let h = s.subrange(hs, e);
            let head = if h.len() > 0 {
                seq![h]
            } else {
                seq![]
            };
            if i < e <= s.len() {
                head + hosts_from(s, e)
            } else {
                head
            }
        }
    } else {
        hosts_from(s, i + 1)
    }
}

/// The URL hosts of a text, lowercased, in order.
pub open spec fn hosts_of(text: Seq<char>) -> Seq<Seq<char>> {
    hosts_from(lowercase(text), 0)
}

/// The route entry of a tool call: its name, then `: host` when its input names one.
pub open spec fn route_step(name: Seq<char>, input: Seq<char>) -> Seq<char> {
    let hs = hosts_of(input);
    if hs.len() > 0 {
        name + ": "@ + hs[0]
    } else {
        name
    }
}

/// Tool names a block contributes.
pub open spec fn block_tools(b: BlockView) -> Seq<Seq<char>> {
    match b {
        BlockView::ToolUse { name, .. } => seq![name],
        BlockView::ToolResult { tool_name, .. } => seq![tool_name],
        _ => seq![],
    }
}

/// Route entries a block contributes.
pub open spec fn block_route(b: BlockView) -> Seq<Seq<char>> {
    match b {
        BlockView::ToolUse { name, input, .. } => seq![route_step(name, input)],
        _ => seq![],
    }
}

/// Hosts a block mentions.
pub open spec fn block_hosts(b: BlockView) -> Seq<Seq<char>> {
    match b {
        BlockView::Text { text } => hosts_of(text),
        BlockView::ToolUse { input, .. } => hosts_of(input),
        BlockView::ToolResult { output, .. } => hosts_of(output),
        _ => seq![],
    }
}

/// `f` of each block, concatenated.
pub open spec fn blocks_map(bs: Seq<BlockView>, f: spec_fn(BlockView) -> Seq<Seq<char>>) -> Seq<
    Seq<char>,
>
    decreases bs.len(),
{
    if bs.len() == 0 {
        seq![]
    } else {
        blocks_map(bs.drop_last(), f) + f(bs.last())
    }
}

/// `f` of each block of each message, concatenated.
pub open spec fn msgs_map(ms: Seq<MessageView>, f: spec_fn(BlockView) -> Seq<Seq<char>>) -> Seq<
    Seq<char>,
>
    decreases ms.len(),
{
    if ms.len() == 0 {
        seq![]
    } else {
        msgs_map(ms.drop_last(), f) + blocks_map(ms.last().blocks, f)
    }
}

/// `acc` extended by each item of `s` that it does not hold yet.
pub open spec fn push_unique_all(acc: Seq<Seq<char>>, s: Seq<Seq<char>>) -> Seq<Seq<char>>
    decreases s.len(),
{
    if s.len() == 0 {
        acc
    } else {
        let a2 = if acc.contains(s[0]) {
            acc
        } else {
            acc.push(s[0])
        };
        push_unique_all(a2, s.drop_first())
    }
}

/// Distinct items of `s` in first-seen order, stopping once `limit` are kept
/// (the first one is kept even when `limit` is 0).
pub open spec fn take_unique(acc: Seq<Seq<char>>, s: Seq<Seq<char>>, limit: nat) -> Seq<Seq<char>>
    decreases s.len(),
{
    if s.len() == 0 {
        acc
    } else if acc.contains(s[0]) {
        take_unique(acc, s.drop_first(), limit)
    } else if acc.push(s[0]).len() >= limit {
        acc.push(s[0])
    } else {
        take_unique(acc.push(s[0]), s.drop_first(), limit)
    }
}

/// The route of an episode: one entry per tool call, at most `max` entries.
pub open spec fn episode_route(ms: Seq<MessageView>, max: nat) -> Seq<Seq<char>> {
    let all = msgs_map(ms, |b: BlockView| block_route(b));
    all.take(if all.len() <= max {
        all.len() as int
    } else {
        max as int
    })
}

/// The domains of an episode: distinct hosts in first-seen order, at most `max`.
pub open spec fn episode_domains(ms: Seq<MessageView>, max: nat) -> Seq<Seq<char>> {
    take_unique(seq![], push_unique_all(seq![], msgs_map(ms, |b: BlockView| block_hosts(b))), max)
}

/// The tools of an episode: distinct tool names in first-seen order, at most `max`.
pub open spec fn episode_tools(ms: Seq<MessageView>, max: nat) -> Seq<Seq<char>> {
    take_unique(seq![], msgs_map(ms, |b: BlockView| block_tools(b)), max)
}

// ---------------------------------------------------------------------------
// Executable functions
// ---------------------------------------------------------------------------

/// The lowercase form of `s` (std `str::to_lowercase`).
#[verifier::external_body]
fn to_lowercase_str(s: &str) -> (r: String)
    ensures
        r@ == lowercase(s@),
{
    s.to_lowercase()
}

/// The first `max` characters of `s`.
pub fn truncate_to_chars(s: &str, max: usize) -> (r: String)
    ensures
        r@ == take_chars(s@, max as nat),
{
    let c = chars_of(s);
    if c.len() <= max {
        string_of(&c)
    } else {
        string_of(&slice_chars(&c, 0, max))
    }
}

/// Whether `c` ends a host name.
fn is_host_boundary_char(c: char) -> (r: bool)
    ensures
        r == is_host_boundary(c),
{
    c == '/' || c == '?' || c == '#' || c == ',' || c == ';' || c == ' ' || c == '\t' || c == '\n'
        || c == '\r' || c == '"' || c == '\'' || c == ')' || c == ']' || c == '>' || c == '}'
}

/// The hosts of the URLs of an already lowercased text.
fn hosts_chars(s: &Vec<char>) -> (r: Vec<Vec<char>>)
    ensures
        vviews(r@) == hosts_from(s@, 0),
{
    let https = chars_of("https://");
    let http = chars_of("http://");
    proof {
        reveal_strlit("https://");
        reveal_strlit("http://");
    }
    let mut out: Vec<Vec<char>> = Vec::new();
    let mut i: usize = 0;
    while i < s.len()
        invariant_except_break
            hosts_from(s@, 0) == vviews(out@) + hosts_from(s@, i as int),
        invariant
            i <= s.len(),
            https@ == "https://"@,
            http@ == "http://"@,
            https@.len() == 8,
            http@.len() == 7,
        ensures
            hosts_from(s@, 0) == vviews(out@),
        decreases s.len() - i,
    {
        let secure = matches_at(s, &https, i);
        let hs: usize = if secure {
            i + 8
        } else if matches_at(s, &http, i) {
            i + 7
        } else {
            i += 1;
            continue ;
        };
        if hs >= s.len() {
            assert(vviews(out@) + hosts_from(s@, i as int) == vviews(out@));
            break ;
        }
        let mut e = hs;
        while e < s.len() && !is_host_boundary_char(s[e])
            invariant
                hs <= e,
                host_end(s@, hs as int) == host_end(s@, e as int),
            decreases s.len() - e,
        {
            e += 1;
        }
        if e > s.len() {
            e = s.len();
        }
        let h = slice_chars(s, hs, e);
        let ghost before = vviews(out@);
        if h.len() > 0 {
            out.push(h);
        }
        proof {
            let head = if h@.len() > 0 {
                seq![h@]
            } else {
                Seq::<Seq<char>>::empty()
            };
            assert(vviews(out@) =~= before + head);
            assert(hosts_from(s@, i as int) == head + hosts_from(s@, e as int));
            assert(before + (head + hosts_from(s@, e as int)) == vviews(out@) + hosts_from(
                s@,
                e as int,
            ));
        }
        i = e;
    }
    out
}

/// The hosts of the `http://` and `https://` URLs of `text`, lowercased, in order.
pub fn extract_hosts(text: &str) -> (r: Vec<String>)
    ensures
        views(r@) == hosts_of(text@),
{
    let lower = to_lowercase_str(text);
    let s = chars_of(lower.as_str());
    strings_all(&hosts_chars(&s))
}

/// Hosts of a text, as character vectors.
fn hosts_of_text(text: &String) -> (r: Vec<Vec<char>>)
    ensures
        vviews(r@) == hosts_of(text@),
{
    let lower = to_lowercase_str(text.as_str());
    let s = chars_of(lower.as_str());
    hosts_chars(&s)
}

/// `acc` extended by the items of `s` that it does not hold yet.
pub(crate) fn push_unique_vec(s: &Vec<Vec<char>>) -> (r: Vec<Vec<char>>)
    ensures
        vviews(r@) == push_unique_all(seq![], vviews(s@)),
{
    let ghost sv = vviews(s@);
    let mut acc: Vec<Vec<char>> = Vec::new();
    let mut i: usize = 0;
    assert(sv.skip(0) == sv);
    assert(vviews(acc@) =~= Seq::<Seq<char>>::empty());
    while i < s.len()
        invariant
            0 <= i <= s.len(),
            sv == vviews(s@),
            push_unique_all(seq![], sv) == push_unique_all(vviews(acc@), sv.skip(i as int)),
        decreases s.len() - i,
    {
        assert(sv.skip(i as int)[0] == s@[i as int]@);
        assert(sv.skip(i as int).drop_first() == sv.skip(i + 1));
        if !contains_vec_of(&acc, &s[i]) {
            let ghost before = vviews(acc@);
            acc.push(crate::compact::summarize::copy_chars(&s[i]));
            assert(vviews(acc@) =~= before.push(s@[i as int]@));
        }
        i += 1;
    }
    assert(sv.skip(s.len() as int).len() == 0);
    acc
}

/// Distinct items of `s` in first-seen order, stopping once `limit` are kept.
fn take_unique_vec(s: &Vec<Vec<char>>, limit: usize) -> (r: Vec<Vec<char>>)
    ensures
        vviews(r@) == take_unique(seq![], vviews(s@), limit as nat),
{
    let ghost sv = vviews(s@);
    let mut acc: Vec<Vec<char>> = Vec::new();
    let mut i: usize = 0;
    assert(sv.skip(0) == sv);
    assert(vviews(acc@) =~= Seq::<Seq<char>>::empty());
    while i < s.len()
        invariant_except_break
            take_unique(seq![], sv, limit as nat) == take_unique(
                vviews(acc@),
                sv.skip(i as int),
                limit as nat,
            ),
        invariant
            0 <= i <= s.len(),
            sv == vviews(s@),
        ensures
            take_unique(seq![], sv, limit as nat) == vviews(acc@),
        decreases s.len() - i,
    {
        assert(sv.skip(i as int)[0] == s@[i as int]@);
        assert(sv.skip(i as int).drop_first() == sv.skip(i + 1));
        if !contains_vec_of(&acc, &s[i]) {
            let ghost before = vviews(acc@);
            acc.push(crate::compact::summarize::copy_chars(&s[i]));
            assert(vviews(acc@) =~= before.push(s@[i as int]@));
            if acc.len() >= limit {
                break ;
            }
        }
        i += 1;
    }
    proof {
        if i == s.len() {
            assert(sv.skip(i as int).len() == 0);
        }
    }
    acc
}

/// Tool names, route entries and hosts of all blocks of all messages.
fn collect_tools_routes_and_domains(ms: &[ConversationMessage]) -> (r: (
    Vec<Vec<char>>,
    Vec<Vec<char>>,
    Vec<Vec<char>>,
))
    ensures
        vviews(r.0@) == msgs_map(msgs_view(ms@), |b: BlockView| block_tools(b)),
        vviews(r.1@) == msgs_map(msgs_view(ms@), |b: BlockView| block_route(b)),
        vviews(r.2@) == msgs_map(msgs_view(ms@), |b: BlockView| block_hosts(b)),
{
    let ghost mv = msgs_view(ms@);
    let ghost ft = |b: BlockView| block_tools(b);
    let ghost fr = |b: BlockView| block_route(b);
    let ghost fh = |b: BlockView| block_hosts(b);
    let mut tools: Vec<Vec<char>> = Vec::new();
    let mut route: Vec<Vec<char>> = Vec::new();
    let mut hosts: Vec<Vec<char>> = Vec::new();
    let mut i: usize = 0;
    while i < ms.len()
        invariant
            0 <= i <= ms.len(),
            mv == msgs_view(ms@),
            ft == (|b: BlockView| block_tools(b)),
            fr == (|b: BlockView| block_route(b)),
            fh == (|b: BlockView| block_hosts(b)),
            vviews(tools@) == msgs_map(mv.take(i as int), ft),
            vviews(route@) == msgs_map(mv.take(i as int), fr),
            vviews(hosts@) == msgs_map(mv.take(i as int), fh),
        decreases ms.len() - i,
    {
        assert(mv.take(i + 1).drop_last() == mv.take(i as int));
        assert(mv.take(i + 1).last() == ms@[i as int]@);
        let ghost bv = ms@[i as int]@.blocks;
        let ghost bt = vviews(tools@);
        let ghost br = vviews(route@);
        let ghost bh = vviews(hosts@);
        let mut j: usize = 0;
        while j < ms[i].blocks.len()
            invariant
                0 <= j <= ms@[i as int].blocks.len(),
                i < ms.len(),
                bv == ms@[i as int]@.blocks,
                bv.len() == ms@[i as int].blocks@.len(),
                ft == (|b: BlockView| block_tools(b)),
                fr == (|b: BlockView| block_route(b)),
                fh == (|b: BlockView| block_hosts(b)),
                vviews(tools@) == bt + blocks_map(bv.take(j as int), ft),
                vviews(route@) == br + blocks_map(bv.take(j as int), fr),
                vviews(hosts@) == bh + blocks_map(bv.take(j as int), fh),
            decreases ms@[i as int].blocks.len() - j,
        {
            assert(bv.take(j + 1).drop_last() == bv.take(j as int));
            assert(bv.take(j + 1).last() == ms@[i as int].blocks@[j as int]@);
            let ghost t0 = vviews(tools@);
            let ghost r0 = vviews(route@);
            let ghost h0 = vviews(hosts@);
            match &ms[i].blocks[j] {
                ContentBlock::Text { text } => {
                    let mut hs = hosts_of_text(text);
                    hosts.append(&mut hs);
                },
                ContentBlock::ToolUse { name, input, .. } => {
                    let mut hs = hosts_of_text(input);
                    let mut step = chars_of(name.as_str());
                    if hs.len() > 0 {
                        push_str(&mut step, ": ");
                        push_all(&mut step, &hs[0]);
                    }
                    tools.push(chars_of(name.as_str()));
                    route.push(step);
                    hosts.append(&mut hs);
                },
                ContentBlock::ToolResult { tool_name, output, .. } => {
                    let mut hs = hosts_of_text(output);
                    tools.push(chars_of(tool_name.as_str()));
                    hosts.append(&mut hs);
                },
                _ => {},
            }
            assert(vviews(tools@) =~= t0 + ft(ms@[i as int].blocks@[j as int]@));
            assert(vviews(route@) =~= r0 + fr(ms@[i as int].blocks@[j as int]@));
            assert(vviews(hosts@) =~= h0 + fh(ms@[i as int].blocks@[j as int]@));
            j += 1;
        }
        assert(bv.take(bv.len() as int) == bv);
        i += 1;
    }
    assert(mv.take(ms.len() as int) == mv);
    (tools, route, hosts)
}

/// Builds the episode of a finished task: its scalar fields copied, the output
/// summary cut to `max_output_summary_chars` characters, the route (one entry
/// per tool call, with the host its input names), and the distinct domains and
/// tools in first-seen order, each list within its limit.
pub fn build_memory_episode(input: MemoryEpisodeBuildInput<'_>, config: MemoryEpisodeBuildConfig) -> (r:
    MemoryEpisode)
    ensures
        r@.id == input.id@,
        r@.task_class == opt_view(input.task_class),
        r@.user_goal == input.user_goal@,
        r@.result == input.result,
        r@.output_summary == match opt_view(input.output_summary) {
            Some(s) => Some(take_chars(s, config.max_output_summary_chars as nat)),
            None => None,
        },
        r@.created_at_epoch_secs == input.created_at_epoch_secs,
        r@.promote_candidate == input.promote_candidate,
        r@.route == episode_route(msgs_view(input.messages@), config.max_route_steps as nat),
        r@.domains == episode_domains(msgs_view(input.messages@), config.max_domains as nat),
        r@.tools == episode_tools(msgs_view(input.messages@), config.max_tools as nat),
{
    let output_summary = match &input.output_summary {
        Some(s) => Some(truncate_to_chars(s.as_str(), config.max_output_summary_chars)),
        None => None,
    };
    let (tool_names, route_steps, all_hosts) = collect_tools_routes_and_domains(input.messages);
    let tools = take_unique_vec(&tool_names, config.max_tools);
    let unique_hosts = push_unique_vec(&all_hosts);
    let domains = take_unique_vec(&unique_hosts, config.max_domains);
    let n = if route_steps.len() <= config.max_route_steps {
        route_steps.len()
    } else {
        config.max_route_steps
    };
    let mut route_kept: Vec<Vec<char>> = Vec::new();
    let mut k: usize = 0;
    while k < n
        invariant
            0 <= k <= n <= route_steps.len(),
            route_kept@.len() == k,
            forall|q: int| 0 <= q < k ==> #[trigger] route_kept@[q]@ == route_steps@[q]@,
        decreases n - k,
    {
        route_kept.push(slice_chars(&route_steps[k], 0, route_steps[k].len()));
        k += 1;
    }
    assert(vviews(route_kept@) =~= vviews(route_steps@).take(n as int));
    MemoryEpisode {
        id: input.id,
        task_class: input.task_class,
        user_goal: input.user_goal,
        route: strings_all(&route_kept),
        domains: strings_all(&domains),
        tools: strings_all(&tools),
        result: input.result,
        output_summary,
        created_at_epoch_secs: input.created_at_epoch_secs,
        promote_candidate: input.promote_candidate,
    }
}

/// Keeping distinct items up to a limit yields distinct items drawn from the
/// input; it stops at the limit, or after the first item when the limit is
/// already reached.
pub proof fn lemma_take_unique(acc: Seq<Seq<char>>, s: Seq<Seq<char>>, limit: nat)
    requires
        no_duplicates(acc),
    ensures
        no_duplicates(take_unique(acc, s, limit)),
        take_unique(acc, s, limit).len() <= if limit > acc.len() {
            limit
        } else {
            acc.len() + 1
        },
        forall|x: Seq<char>| #[trigger] take_unique(acc, s, limit).contains(x) ==> acc.contains(x)
            || s.contains(x),
    decreases s.len(),
{
    if s.len() == 0 {
    } else if acc.contains(s[0]) {
        lemma_take_unique(acc, s.drop_first(), limit);
        assert forall|x: Seq<char>| #[trigger] take_unique(acc, s, limit).contains(x) implies acc.contains(x)
            || s.contains(x) by {
            if s.drop_first().contains(x) {
                let k = choose|k: int| 0 <= k < s.drop_first().len() && s.drop_first()[k] == x;
                assert(s[k + 1] == x);
            }
        }
    } else {
        let a2 = acc.push(s[0]);
        assert forall|i: int, j: int| 0 <= i < j < a2.len() implies a2[i] != a2[j] by {
            if j == acc.len() {
                assert(a2[i] == acc[i]);
                if acc[i] == s[0] {
                    assert(acc.contains(s[0]));
                }
            }
        }
        assert forall|x: Seq<char>| #[trigger] a2.contains(x) implies acc.contains(x) || s.contains(x) by {
            let k = choose|k: int| 0 <= k < a2.len() && a2[k] == x;
            if k < acc.len() {
                assert(acc[k] == x);
            } else {
                assert(s[0] == x);
            }
        }
        if a2.len() < limit {
            lemma_take_unique(a2, s.drop_first(), limit);
            assert forall|x: Seq<char>| #[trigger] take_unique(acc, s, limit).contains(x) implies acc.contains(
                x,
            ) || s.contains(x) by {
                if s.drop_first().contains(x) {
                    let k = choose|k: int| 0 <= k < s.drop_first().len() && s.drop_first()[k] == x;
                    assert(s[k + 1] == x);
                }
            }
        }
    }
}

/// An episode lists each tool and each domain once, and keeps no more tools,
/// domains or route steps than the limits allow (a limit of zero still keeps
/// the first tool and the first domain).
pub proof fn lemma_episode_lists_within_limits(ms: Seq<MessageView>, c: MemoryEpisodeBuildConfig)
    ensures
        no_duplicates(episode_tools(ms, c.max_tools as nat)),
        no_duplicates(episode_domains(ms, c.max_domains as nat)),
        episode_tools(ms, c.max_tools as nat).len() <= if c.max_tools > 0 {
            c.max_tools as nat
        } else {
            1
        },
        episode_domains(ms, c.max_domains as nat).len() <= if c.max_domains > 0 {
            c.max_domains as nat
        } else {
            1
        },
        episode_route(ms, c.max_route_steps as nat).len() <= c.max_route_steps,
{
    lemma_take_unique(seq![], msgs_map(ms, |b: BlockView| block_tools(b)), c.max_tools as nat);
    lemma_take_unique(
        seq![],
        push_unique_all(seq![], msgs_map(ms, |b: BlockView| block_hosts(b))),
        c.max_domains as nat,
    );
}

} // verus!
