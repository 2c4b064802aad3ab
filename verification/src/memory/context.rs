//! The memory shown to the agent before a new task: what is looked up, within
//! which limits, and how it is rendered.
use vstd::prelude::*;

use super::evidence::{AccessEvidence, AccessStatus, DomainEvidence, EvidenceStore, TaskEvidence};
use super::episode_builder::{push_unique_all, push_unique_vec};
use super::{EpisodeStore, MemoryEpisode, MemoryEpisodeResult};
use crate::text::{
    bool_text, chars_of, dec, join, join_strings, push_all, push_bool, push_dec, push_str,
    slice_chars, string_of, views,
};

verus! {

/// What to look up for a task.
#[derive(Debug, Clone)]
pub struct MemoryContextQuery {
    pub task_class: Option<String>,
    pub domains: Vec<String>,
    pub include_access: bool,
    pub recent_episode_limit: usize,
}

/// How much memory to look up and show.
#[derive(Debug, Clone, Copy, PartialEq, Eq)]
pub struct MemoryContextBudget {
    pub max_task_evidence: usize,
    pub max_domain_evidence: usize,
    pub max_access_evidence: usize,
    pub max_recent_episodes: usize,
    pub max_rendered_chars: usize,
}

impl Default for MemoryContextBudget {
    fn default() -> (b: Self)
        ensures
            b.max_task_evidence == 1,
            b.max_domain_evidence == 3,
            b.max_access_evidence == 3,
            b.max_recent_episodes == 2,
            b.max_rendered_chars == 4000,
    {
        MemoryContextBudget {
            max_task_evidence: 1,
            max_domain_evidence: 3,
            max_access_evidence: 3,
            max_recent_episodes: 2,
            max_rendered_chars: 4000,
        }
    }
}

/// The memory found for a task.
#[derive(Debug, Clone)]
pub struct MemoryContext {
    pub task_evidence: Vec<TaskEvidence>,
    pub domain_evidence: Vec<DomainEvidence>,
    pub access_evidence: Vec<AccessEvidence>,
    pub recent_episodes: Vec<MemoryEpisode>,
}

/// Looks memory up in an episode store and an evidence store.
#[derive(Debug, Clone)]
pub struct MemoryContextLoader {
    pub(crate) episode_store: EpisodeStore,
    pub(crate) evidence_store: EvidenceStore,
}

/// The name `Debug` gives an access status.
pub open spec fn access_status_name(s: AccessStatus) -> Seq<char> {
    match s {
        AccessStatus::Unknown => "Unknown"@,
        AccessStatus::Registered => "Registered"@,
        AccessStatus::LoggedInObserved => "LoggedInObserved"@,
        AccessStatus::RequiresLogin => "RequiresLogin"@,
        AccessStatus::NotAvailable => "NotAvailable"@,
    }
}

/// The name `Debug` gives an episode result.
pub open spec fn episode_result_name(r: MemoryEpisodeResult) -> Seq<char> {
    match r {
        MemoryEpisodeResult::Success => "Success"@,
        MemoryEpisodeResult::Partial => "Partial"@,
        MemoryEpisodeResult::Failure => "Failure"@,
    }
}

/// `s`, cut to `max` characters with `...` as the last three when it is longer.
pub open spec fn shortened(s: Seq<char>, max: nat) -> Seq<char> {
    if s.len() > max {
        s.take(if max >= 3 {
            max - 3
        } else {
            0
        }) + "..."@
    } else {
        s
    }
}

/// The note that ends a cut rendering.
pub open spec fn truncation_note() -> Seq<char> {
    "\n(truncated)"@
}

/// `out` limited to `max` characters: unchanged when it fits, else cut so that
/// it ends with the truncation note (or holds a prefix of the note when even
/// that does not fit).
pub open spec fn capped(out: Seq<char>, max: nat) -> Seq<char> {
    let note = truncation_note();
    if out.len() <= max {
        out
    } else if max == 0 {
        seq![]
    } else if max <= note.len() {
        note.take(max as int)
    } else {
        out.take(max - note.len()) + note
    }
}

/// One line of task evidence.
pub open spec fn task_line(t: TaskEvidence) -> Seq<char> {
    "- `"@ + t.task_class@ + "`: "@ + dec(t.success_count as nat) + " success / "@ + dec(
        t.failure_count as nat,
    ) + " failure | tools: "@ + join(views(t.tools@), ", "@) + "\n"@
}

/// The field hints of domain evidence, or `none`.
pub open spec fn hints_text(d: DomainEvidence) -> Seq<char> {
    if d.field_hints@.len() == 0 {
        "none"@
    } else {
        join(views(d.field_hints@), ", "@)
    }
}

/// One line of domain evidence.
pub open spec fn domain_line(d: DomainEvidence) -> Seq<char> {
    "- `"@ + d.domain@ + "`: "@ + dec(d.success_count as nat) + " success / "@ + dec(
        d.failure_count as nat,
    ) + " failure | hints: "@ + hints_text(d) + "\n"@
}

/// One line of access evidence.
pub open spec fn access_line(a: AccessEvidence) -> Seq<char> {
    "- `"@ + a.domain@ + "`: status="@ + access_status_name(a.status) + " | extension="@
        + bool_text(a.extension_mode) + "\n"@
}

/// The task class of an episode, or `none`.
pub open spec fn task_class_text(e: MemoryEpisode) -> Seq<char> {
    match e.task_class {
        Some(t) => t@,
        None => "none"@,
    }
}

/// One line of a recent episode; the goal is cut to 80 characters.
pub open spec fn episode_line(e: MemoryEpisode) -> Seq<char> {
    "- `"@ + e.id@ + "` ["@ + task_class_text(e) + "] "@ + episode_result_name(e.result) + ": "@
        + shortened(e.user_goal@, 80) + "\n"@
}

/// Lines of task evidence, in order.
pub open spec fn task_lines(ts: Seq<TaskEvidence>) -> Seq<char>
    decreases ts.len(),
{
    if ts.len() == 0 {
        seq![]
    } else {
        task_lines(ts.drop_last()) + task_line(ts.last())
    }
}

/// Lines of domain evidence, in order.
pub open spec fn domain_lines(ds: Seq<DomainEvidence>) -> Seq<char>
    decreases ds.len(),
{
    if ds.len() == 0 {
        seq![]
    } else {
        domain_lines(ds.drop_last()) + domain_line(ds.last())
    }
}

/// Lines of access evidence, in order.
pub open spec fn access_lines(as_: Seq<AccessEvidence>) -> Seq<char>
    decreases as_.len(),
{
    if as_.len() == 0 {
        seq![]
    } else {
        access_lines(as_.drop_last()) + access_line(as_.last())
    }
}

/// Lines of recent episodes, in order.
pub open spec fn episode_lines(es: Seq<MemoryEpisode>) -> Seq<char>
    decreases es.len(),
{
    if es.len() == 0 {
        seq![]
    } else {
        episode_lines(es.drop_last()) + episode_line(es.last())
    }
}

/// A titled section, or nothing when it has no lines.
pub open spec fn section(title: Seq<char>, count: nat, lines: Seq<char>) -> Seq<char> {
    if count == 0 {
        seq![]
    } else {
        title + lines + "\n"@
    }
}

/// The rendering before the length cap: a heading, then the task, domain,
/// access and episode sections that have entries.
pub open spec fn context_body(c: MemoryContext) -> Seq<char> {
    "Relevant memory:\n\n"@ + section(
        "## Task evidence\n\n"@,
        c.task_evidence@.len(),
        task_lines(c.task_evidence@),
    ) + section(
        "## Domain evidence\n\n"@,
        c.domain_evidence@.len(),
        domain_lines(c.domain_evidence@),
    ) + section(
        "## Access evidence\n\n"@,
        c.access_evidence@.len(),
        access_lines(c.access_evidence@),
    ) + section(
        "## Recent episodes\n\n"@,
        c.recent_episodes@.len(),
        episode_lines(c.recent_episodes@),
    )
}

/// The whole context holds nothing.
pub open spec fn context_empty(c: MemoryContext) -> bool {
    c.task_evidence@.len() == 0 && c.domain_evidence@.len() == 0 && c.access_evidence@.len() == 0
        && c.recent_episodes@.len() == 0
}

/// What rendering a context gives: nothing for an empty context, else the
/// body capped at the budget's character limit.
pub open spec fn rendered_context(c: MemoryContext, budget: MemoryContextBudget) -> Seq<char> {
    if context_empty(c) {
        seq![]
    } else {
        capped(context_body(c), budget.max_rendered_chars as nat)
    }
}

/// `s` cut to `max` characters, ending in `...` when it was longer.
fn truncate_str(s: &str, max_chars: usize) -> (r: Vec<char>)
    ensures
        r@ == shortened(s@, max_chars as nat),
{
    let cs = chars_of(s);
    if cs.len() > max_chars {
        let keep: usize = if max_chars >= 3 {
            max_chars - 3
        } else {
            0
        };
        let mut r = slice_chars(&cs, 0, keep);
        push_str(&mut r, "...");
        r
    } else {
        cs
    }
}

/// `output` limited to `max_chars` characters, as `capped` describes.
fn enforce_max_chars(output: Vec<char>, max_chars: usize) -> (r: Vec<char>)
    ensures
        r@ == capped(output@, max_chars as nat),
{
    if output.len() <= max_chars {
        return output;
    }
    if max_chars == 0 {
        return Vec::new();
    }
    let note = chars_of("\n(truncated)");
    if max_chars <= note.len() {
        return slice_chars(&note, 0, max_chars);
    }
    let target = max_chars - note.len();
    let mut r = slice_chars(&output, 0, target);
    push_all(&mut r, &note);
    r
}

/// Appends the lines of `ts` to `out`.
fn push_task_lines(out: &mut Vec<char>, ts: &Vec<TaskEvidence>)
    ensures
        final(out)@ == old(out)@ + task_lines(ts@),
{
    let mut i: usize = 0;
    assert(ts@.take(0) =~= Seq::<TaskEvidence>::empty());
    while i < ts.len()
        invariant
            0 <= i <= ts.len(),
            out@ == old(out)@ + task_lines(ts@.take(i as int)),
        decreases ts.len() - i,
    {
        let t = &ts[i];
        assert(ts@.take(i + 1).drop_last() == ts@.take(i as int));
        let ghost before = out@;
        push_str(out, "- `");
        push_str(out, t.task_class.as_str());
        push_str(out, "`: ");
        push_dec(out, t.success_count as u64);
        push_str(out, " success / ");
        push_dec(out, t.failure_count as u64);
        push_str(out, " failure | tools: ");
        let tools = join_strings(&t.tools, ", ");
        push_all(out, &tools);
        push_str(out, "\n");
        assert(out@ =~= before + task_line(ts@[i as int]));
        i += 1;
    }
    assert(ts@.take(ts.len() as int) == ts@);
}

/// Appends the lines of `ds` to `out`.
fn push_domain_lines(out: &mut Vec<char>, ds: &Vec<DomainEvidence>)
    ensures
        final(out)@ == old(out)@ + domain_lines(ds@),
{
    let mut i: usize = 0;
    assert(ds@.take(0) =~= Seq::<DomainEvidence>::empty());
    while i < ds.len()
        invariant
            0 <= i <= ds.len(),
            out@ == old(out)@ + domain_lines(ds@.take(i as int)),
        decreases ds.len() - i,
    {
        let d = &ds[i];
        assert(ds@.take(i + 1).drop_last() == ds@.take(i as int));
        let ghost before = out@;
        push_str(out, "- `");
        push_str(out, d.domain.as_str());
        push_str(out, "`: ");
        push_dec(out, d.success_count as u64);
        push_str(out, " success / ");
        push_dec(out, d.failure_count as u64);
        push_str(out, " failure | hints: ");
        if d.field_hints.len() == 0 {
            push_str(out, "none");
        } else {
            let hints = join_strings(&d.field_hints, ", ");
            push_all(out, &hints);
        }
        push_str(out, "\n");
        assert(out@ =~= before + domain_line(ds@[i as int]));
        i += 1;
    }
    assert(ds@.take(ds.len() as int) == ds@);
}

/// Appends the `Debug` name of `s` to `out`.
fn push_access_status(out: &mut Vec<char>, s: AccessStatus)
    ensures
        final(out)@ == old(out)@ + access_status_name(s),
{
    match s {
        AccessStatus::Unknown => push_str(out, "Unknown"),
        AccessStatus::Registered => push_str(out, "Registered"),
        AccessStatus::LoggedInObserved => push_str(out, "LoggedInObserved"),
        AccessStatus::RequiresLogin => push_str(out, "RequiresLogin"),
        AccessStatus::NotAvailable => push_str(out, "NotAvailable"),
    }
}

/// Appends the `Debug` name of `r` to `out`.
fn push_episode_result(out: &mut Vec<char>, r: MemoryEpisodeResult)
    ensures
        final(out)@ == old(out)@ + episode_result_name(r),
{
    match r {
        MemoryEpisodeResult::Success => push_str(out, "Success"),
        MemoryEpisodeResult::Partial => push_str(out, "Partial"),
        MemoryEpisodeResult::Failure => push_str(out, "Failure"),
    }
}

/// Appends the lines of `as_` to `out`.
fn push_access_lines(out: &mut Vec<char>, as_: &Vec<AccessEvidence>)
    ensures
        final(out)@ == old(out)@ + access_lines(as_@),
{
    let mut i: usize = 0;
    assert(as_@.take(0) =~= Seq::<AccessEvidence>::empty());
    while i < as_.len()
        invariant
            0 <= i <= as_.len(),
            out@ == old(out)@ + access_lines(as_@.take(i as int)),
        decreases as_.len() - i,
    {
        let a = &as_[i];
        assert(as_@.take(i + 1).drop_last() == as_@.take(i as int));
        let ghost before = out@;
        push_str(out, "- `");
        push_str(out, a.domain.as_str());
        push_str(out, "`: status=");
        push_access_status(out, a.status);
        push_str(out, " | extension=");
        push_bool(out, a.extension_mode);
        push_str(out, "\n");
        assert(out@ =~= before + access_line(as_@[i as int]));
        i += 1;
    }
    assert(as_@.take(as_.len() as int) == as_@);
}

/// Appends the lines of `es` to `out`.
fn push_episode_lines(out: &mut Vec<char>, es: &Vec<MemoryEpisode>)
    ensures
        final(out)@ == old(out)@ + episode_lines(es@),
{
    let mut i: usize = 0;
    assert(es@.take(0) =~= Seq::<MemoryEpisode>::empty());
    while i < es.len()
        invariant
            0 <= i <= es.len(),
            out@ == old(out)@ + episode_lines(es@.take(i as int)),
        decreases es.len() - i,
    {
        let e = &es[i];
        assert(es@.take(i + 1).drop_last() == es@.take(i as int));
        let ghost before = out@;
        push_str(out, "- `");
        push_str(out, e.id.as_str());
        push_str(out, "` [");
        match &e.task_class {
            Some(t) => push_str(out, t.as_str()),
            None => push_str(out, "none"),
        }
        push_str(out, "] ");
        push_episode_result(out, e.result);
        push_str(out, ": ");
        let goal = truncate_str(e.user_goal.as_str(), 80);
        push_all(out, &goal);
        push_str(out, "\n");
        assert(out@ =~= before + episode_line(es@[i as int]));
        i += 1;
    }
    assert(es@.take(es.len() as int) == es@);
}

impl MemoryContextLoader {
    /// A loader over the two stores.
    pub fn new(episode_store: EpisodeStore, evidence_store: EvidenceStore) -> (l: Self)
        ensures
            l.episodes() == episode_store,
            l.evidence() == evidence_store,
    {
        MemoryContextLoader { episode_store, evidence_store }
    }

    /// The episode store looked up.
    pub closed spec fn episodes(&self) -> EpisodeStore {
        self.episode_store
    }

    /// The evidence store looked up.
    pub closed spec fn evidence(&self) -> EvidenceStore {
        self.evidence_store
    }

    /// The episode store looked up.
    pub fn episode_store(&self) -> (r: &EpisodeStore)
        ensures
            *r == self.episodes(),
    {
        &self.episode_store
    }

    /// The evidence store looked up.
    pub fn evidence_store(&self) -> (r: &EvidenceStore)
        ensures
            *r == self.evidence(),
    {
        &self.evidence_store
    }

    /// Renders `context` as Markdown for the agent: nothing for an empty
    /// context; otherwise a heading and a section for each kind of memory that
    /// has entries, cut to the budget's character limit.
    #[verifier::rlimit(40)]
    pub fn render_context(&self, context: &MemoryContext, budget: MemoryContextBudget) -> (r: String)
        ensures
            r@ == rendered_context(*context, budget),
    {
        if context.task_evidence.len() == 0 && context.domain_evidence.len() == 0
            && context.access_evidence.len() == 0 && context.recent_episodes.len() == 0 {
            return String::new();
        }
        let mut out = chars_of("Relevant memory:\n\n");
        let ghost s0 = out@;
        if context.task_evidence.len() > 0 {
            push_str(&mut out, "## Task evidence\n\n");
            push_task_lines(&mut out, &context.task_evidence);
            push_str(&mut out, "\n");
        }
        let ghost s1 = out@;
        assert(s1 =~= s0 + section(
            "## Task evidence\n\n"@,
            context.task_evidence@.len(),
            task_lines(context.task_evidence@),
        ));
        if context.domain_evidence.len() > 0 {
            push_str(&mut out, "## Domain evidence\n\n");
            push_domain_lines(&mut out, &context.domain_evidence);
            push_str(&mut out, "\n");
        }
        let ghost s2 = out@;
        assert(s2 =~= s1 + section(
            "## Domain evidence\n\n"@,
            context.domain_evidence@.len(),
            domain_lines(context.domain_evidence@),
        ));
        if context.access_evidence.len() > 0 {
            push_str(&mut out, "## Access evidence\n\n");
            push_access_lines(&mut out, &context.access_evidence);
            push_str(&mut out, "\n");
        }
        let ghost s3 = out@;
        assert(s3 =~= s2 + section(
            "## Access evidence\n\n"@,
            context.access_evidence@.len(),
            access_lines(context.access_evidence@),
        ));
        if context.recent_episodes.len() > 0 {
            push_str(&mut out, "## Recent episodes\n\n");
            push_episode_lines(&mut out, &context.recent_episodes);
            push_str(&mut out, "\n");
        }
        assert(out@ =~= s3 + section(
            "## Recent episodes\n\n"@,
            context.recent_episodes@.len(),
            episode_lines(context.recent_episodes@),
        ));
        assert(out@ =~= context_body(*context));
        let capped_out = enforce_max_chars(out, budget.max_rendered_chars);
        string_of(&capped_out)
    }
}

/// A rendering never exceeds the budget's character limit.
pub proof fn lemma_rendered_context_within_budget(c: MemoryContext, budget: MemoryContextBudget)
    ensures
        rendered_context(c, budget).len() <= budget.max_rendered_chars,
{
    reveal_strlit("\n(truncated)");
    let body = context_body(c);
    let max = budget.max_rendered_chars as nat;
    if !context_empty(c) && body.len() > max && max > truncation_note().len() {
        assert(capped(body, max).len() == max);
    }
}

/// A rendering that had to be cut ends with the truncation note when the limit
/// leaves room for it.
pub proof fn lemma_cut_rendering_ends_with_note(c: MemoryContext, budget: MemoryContextBudget)
    requires
        !context_empty(c),
        context_body(c).len() > budget.max_rendered_chars,
        budget.max_rendered_chars > truncation_note().len(),
    ensures
        rendered_context(c, budget).len() == budget.max_rendered_chars,
        rendered_context(c, budget).skip(
            budget.max_rendered_chars - truncation_note().len(),
        ) == truncation_note(),
        rendered_context(c, budget).take(budget.max_rendered_chars - truncation_note().len())
            == context_body(c).take(budget.max_rendered_chars - truncation_note().len()),
{
    let r = rendered_context(c, budget);
    let k = budget.max_rendered_chars - truncation_note().len();
    assert(r.skip(k) =~= truncation_note());
    assert(r.take(k) =~= context_body(c).take(k));
}

/// The domains of a query, each once, in first-seen order: the order in which
/// loading looks them up.
pub fn distinct_domains(domains: &Vec<String>) -> (r: Vec<String>)
    ensures
        views(r@) == push_unique_all(seq![], views(domains@)),
{
    let cs = crate::text::chars_all(domains);
    let u = push_unique_vec(&cs);
    crate::text::strings_all(&u)
}

/// How many recent episodes loading reads: the query's limit, capped by the
/// budget.
pub fn episode_limit(query: &MemoryContextQuery, budget: MemoryContextBudget) -> (r: usize)
    ensures
        r == if query.recent_episode_limit <= budget.max_recent_episodes {
            query.recent_episode_limit
        } else {
            budget.max_recent_episodes
        },
{
    if query.recent_episode_limit <= budget.max_recent_episodes {
        query.recent_episode_limit
    } else {
        budget.max_recent_episodes
    }
}

/// Whether loading looks up task evidence: a task class is given and the
/// budget allows task evidence.
pub fn wants_task_evidence(query: &MemoryContextQuery, budget: MemoryContextBudget) -> (r: bool)
    ensures
        r == (query.task_class is Some && budget.max_task_evidence > 0),
{
    query.task_class.is_some() && budget.max_task_evidence > 0
}


/// A store read while a memory context is put together.
#[derive(Debug, Clone, Copy, PartialEq, Eq, Structural)]
pub enum ContextRead {
    /// The evidence for the query's task class.
    TaskEvidence,
    /// The domain evidence for the distinct domain at this position.
    DomainEvidence(usize),
    /// The access evidence for the distinct domain at this position.
    AccessEvidence(usize),
    /// This many of the most recent episodes.
    RecentEpisodes(usize),
    /// Nothing more to read.
    Finished,
}

/// What is considered next while a memory context is put together.
#[derive(Debug, Clone, Copy, PartialEq, Eq, Structural)]
pub enum ContextPlace {
    /// Nothing read yet.
    Start,
    /// The domain evidence of the distinct domain at this position.
    Domain(usize),
    /// The access evidence of the distinct domain at this position.
    Access(usize),
    /// Everything has been read.
    Done,
}

/// The step once domain and access evidence are done: the recent episodes,
/// if any are wanted.
pub open spec fn episode_step(limit: nat) -> (ContextRead, ContextPlace) {
    if limit > 0 {
        (ContextRead::RecentEpisodes(limit as usize), ContextPlace::Done)
    } else {
        (ContextRead::Finished, ContextPlace::Done)
    }
}

/// The step at the access evidence of distinct domain `i`: read it while
/// access evidence is wanted, domains remain and fewer than the budget's
/// entries were found; otherwise go on to the episodes.
pub open spec fn access_step(
    include_access: bool,
    i: nat,
    domains: nat,
    found: nat,
    max: nat,
    limit: nat,
) -> (ContextRead, ContextPlace) {
    if include_access && i < domains && found < max {
        (ContextRead::AccessEvidence(i as usize), ContextPlace::Access((i + 1) as usize))
    } else {
        episode_step(limit)
    }
}

/// The step at the domain evidence of distinct domain `i`: read it while
/// domains remain and fewer than the budget's entries were found; otherwise
/// go on to the access evidence from the first domain.
pub open spec fn domain_step(
    query: MemoryContextQuery,
    budget: MemoryContextBudget,
    i: nat,
    domains: nat,
    domain_found: nat,
    access_found: nat,
) -> (ContextRead, ContextPlace) {
    if i < domains && domain_found < budget.max_domain_evidence {
        (ContextRead::DomainEvidence(i as usize), ContextPlace::Domain((i + 1) as usize))
    } else {
        access_step(
            query.include_access,
            0,
            domains,
            access_found,
            budget.max_access_evidence as nat,
            min_nat(query.recent_episode_limit as nat, budget.max_recent_episodes as nat),
        )
    }
}

/// The smaller of two numbers.
pub open spec fn min_nat(a: nat, b: nat) -> nat {
    if a <= b {
        a
    } else {
        b
    }
}

/// The read that comes next at `place`, and the place after it, given how
/// many distinct domains the query names and how much domain and access
/// evidence was found so far.
pub open spec fn context_step(
    query: MemoryContextQuery,
    budget: MemoryContextBudget,
    domains: nat,
    place: ContextPlace,
    domain_found: nat,
    access_found: nat,
) -> (ContextRead, ContextPlace) {
    match place {
        ContextPlace::Start => if query.task_class is Some && budget.max_task_evidence > 0 {
            (ContextRead::TaskEvidence, ContextPlace::Domain(0))
        } else {
            domain_step(query, budget, 0, domains, domain_found, access_found)
        },
        ContextPlace::Domain(i) => domain_step(query, budget, i as nat, domains, domain_found, access_found),
        ContextPlace::Access(i) => access_step(
            query.include_access,
            i as nat,
            domains,
            access_found,
            budget.max_access_evidence as nat,
            min_nat(query.recent_episode_limit as nat, budget.max_recent_episodes as nat),
        ),
        ContextPlace::Done => (ContextRead::Finished, ContextPlace::Done),
    }
}

/// The next read while a memory context is put together: the task evidence
/// first when a task class is given and the budget allows it; then the
/// domain evidence of each distinct domain in turn while fewer than the
/// budget's entries were found; then, when asked for, the access evidence
/// of each distinct domain under its own cap; then the recent episodes, as
/// many as both the query and the budget allow, when that is more than none.
pub fn next_context_read(
    query: &MemoryContextQuery,
    budget: MemoryContextBudget,
    domain_count: usize,
    place: ContextPlace,
    domain_found: usize,
    access_found: usize,
) -> (r: (ContextRead, ContextPlace))
    ensures
        r == context_step(
            *query,
            budget,
            domain_count as nat,
            place,
            domain_found as nat,
            access_found as nat,
        ),
{
    let limit = episode_limit(query, budget);
    let episodes = if limit > 0 {
        (ContextRead::RecentEpisodes(limit), ContextPlace::Done)
    } else {
        (ContextRead::Finished, ContextPlace::Done)
    };
    let (wants_task, i): (bool, usize) = match place {
        ContextPlace::Start => (wants_task_evidence(query, budget), 0),
        ContextPlace::Domain(i) => (false, i),
        _ => (false, 0),
    };
    match place {
        ContextPlace::Start | ContextPlace::Domain(_) => {
            if wants_task {
                (ContextRead::TaskEvidence, ContextPlace::Domain(0))
            } else if i < domain_count && domain_found < budget.max_domain_evidence {
                (ContextRead::DomainEvidence(i), ContextPlace::Domain(i + 1))
            } else if query.include_access && 0 < domain_count && access_found < budget.max_access_evidence {
                (ContextRead::AccessEvidence(0), ContextPlace::Access(1))
            } else {
                episodes
            }
        },
        ContextPlace::Access(i) => {
            if query.include_access && i < domain_count && access_found < budget.max_access_evidence {
                (ContextRead::AccessEvidence(i), ContextPlace::Access(i + 1))
            } else {
                episodes
            }
        },
        ContextPlace::Done => (ContextRead::Finished, ContextPlace::Done),
    }
}

} // verus!
