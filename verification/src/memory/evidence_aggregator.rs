//! Aggregating episodes into evidence per task class and per domain.
use vstd::prelude::*;

use crate::order::lemma_sort_dedup;

use super::evidence::{views2, DomainEvidence, DomainEvidenceView, TaskEvidence, TaskEvidenceView};
use super::{episodes_view, EpisodeView, MemoryEpisode, MemoryEpisodeResult};
use crate::compact::summarize::{copy_chars, sort_dedup, sort_dedup_vecs};
use crate::text::{chars_all, contains_vec_of, eq_vec, lex_lt, string_of, strings_all, views, vviews};

verus! {

/// Limits on aggregated evidence.
#[derive(Debug, Clone, Copy)]
pub struct EvidenceAggregationConfig {
    pub max_routes_per_task: usize,
    pub max_routes_per_domain: usize,
    pub max_tools_per_task: usize,
    pub max_field_hints_per_domain: usize,
}

impl Default for EvidenceAggregationConfig {
    fn default() -> (c: Self)
        ensures
            c.max_routes_per_task == 5,
            c.max_routes_per_domain == 5,
            c.max_tools_per_task == 16,
            c.max_field_hints_per_domain == 16,
    {
        EvidenceAggregationConfig {
            max_routes_per_task: 5,
            max_routes_per_domain: 5,
            max_tools_per_task: 16,
            max_field_hints_per_domain: 16,
        }
    }
}

/// Evidence aggregated from episodes.
#[derive(Debug, Clone, PartialEq, Eq)]
pub struct EvidenceAggregationResult {
    pub task_evidence: Vec<TaskEvidence>,
    pub domain_evidence: Vec<DomainEvidence>,
}

// ---------------------------------------------------------------------------
// Specifications
// ---------------------------------------------------------------------------

/// The episodes marked as promotion candidates, in order.
pub open spec fn promoted(eps: Seq<EpisodeView>) -> Seq<EpisodeView> {
    eps.filter(|e: EpisodeView| e.promote_candidate)
}

/// The task classes that episodes name, in order.
pub open spec fn task_classes_of(eps: Seq<EpisodeView>) -> Seq<Seq<char>>
    decreases eps.len(),
{
    if eps.len() == 0 {
        seq![]
    } else {
        task_classes_of(eps.drop_last()) + match eps.last().task_class {
            Some(tc) => seq![tc],
            None => seq![],
        }
    }
}

/// The domains that episodes name, in order.
pub open spec fn domains_of(eps: Seq<EpisodeView>) -> Seq<Seq<char>>
    decreases eps.len(),
{
    if eps.len() == 0 {
        seq![]
    } else {
        domains_of(eps.drop_last()) + eps.last().domains
    }
}

/// The tools that episodes name, in order.
pub open spec fn tools_of(eps: Seq<EpisodeView>) -> Seq<Seq<char>>
    decreases eps.len(),
{
    if eps.len() == 0 {
        seq![]
    } else {
        tools_of(eps.drop_last()) + eps.last().tools
    }
}

/// The routes of the successful episodes, in order.
pub open spec fn success_routes(eps: Seq<EpisodeView>) -> Seq<Seq<Seq<char>>>
    decreases eps.len(),
{
    if eps.len() == 0 {
        seq![]
    } else {
        success_routes(eps.drop_last()) + if eps.last().result == MemoryEpisodeResult::Success {
            seq![eps.last().route]
        } else {
            seq![]
        }
    }
}

/// Number of episodes that ended with `r`.
pub open spec fn count_result(eps: Seq<EpisodeView>, r: MemoryEpisodeResult) -> nat
    decreases eps.len(),
{
    if eps.len() == 0 {
        0
    } else {
        count_result(eps.drop_last(), r) + if eps.last().result == r {
            1nat
        } else {
            0nat
        }
    }
}

/// The latest creation time of the episodes, 0 when there are none.
pub open spec fn latest(eps: Seq<EpisodeView>) -> u64
    decreases eps.len(),
{
    if eps.len() == 0 {
        0
    } else {
        let rest = latest(eps.drop_last());
        if eps.last().created_at_epoch_secs > rest {
            eps.last().created_at_epoch_secs
        } else {
            rest
        }
    }
}

/// Distinct items of `s` in first-seen order, at most `max` of them.
pub open spec fn dedup_limit<A>(acc: Seq<A>, s: Seq<A>, max: nat) -> Seq<A>
    decreases s.len(),
{
    if s.len() == 0 || acc.len() >= max {
        acc
    } else if acc.contains(s[0]) {
        dedup_limit(acc, s.drop_first(), max)
    } else {
        dedup_limit(acc.push(s[0]), s.drop_first(), max)
    }
}

/// The episodes of task class `tc`.
pub open spec fn task_group(eps: Seq<EpisodeView>, tc: Seq<char>) -> Seq<EpisodeView> {
    eps.filter(|e: EpisodeView| e.task_class == Some(tc))
}

/// The episodes that name domain `d`.
pub open spec fn domain_group(eps: Seq<EpisodeView>, d: Seq<char>) -> Seq<EpisodeView> {
    eps.filter(|e: EpisodeView| e.domains.contains(d))
}

/// The evidence about task class `tc` drawn from its episodes `g`.
pub open spec fn task_evidence_of(tc: Seq<char>, g: Seq<EpisodeView>, c: EvidenceAggregationConfig) -> TaskEvidenceView {
    TaskEvidenceView {
        task_class: tc,
        successful_routes: dedup_limit(seq![], success_routes(g), c.max_routes_per_task as nat),
        tools: dedup_limit(seq![], tools_of(g), c.max_tools_per_task as nat),
        output_fields: seq![],
        success_count: count_result(g, MemoryEpisodeResult::Success) as u32,
        failure_count: count_result(g, MemoryEpisodeResult::Failure) as u32,
        last_used_epoch_secs: latest(g),
    }
}

/// The evidence about domain `d` drawn from its episodes `g`.
pub open spec fn domain_evidence_of(d: Seq<char>, g: Seq<EpisodeView>, c: EvidenceAggregationConfig) -> DomainEvidenceView {
    DomainEvidenceView {
        domain: d,
        task_classes: dedup_limit(seq![], task_classes_of(g), usize::MAX as nat),
        successful_routes: dedup_limit(seq![], success_routes(g), c.max_routes_per_domain as nat),
        field_hints: seq![],
        success_count: count_result(g, MemoryEpisodeResult::Success) as u32,
        failure_count: count_result(g, MemoryEpisodeResult::Failure) as u32,
        last_verified_epoch_secs: latest(g),
    }
}

/// Task evidence of the promoted episodes, one entry per task class in ascending order.
pub open spec fn spec_task_evidence(eps: Seq<EpisodeView>, c: EvidenceAggregationConfig) -> Seq<
    TaskEvidenceView,
> {
    let cands = promoted(eps);
    sort_dedup(task_classes_of(cands)).map_values(
        |tc: Seq<char>| task_evidence_of(tc, task_group(cands, tc), c),
    )
}

/// Domain evidence of the promoted episodes, one entry per domain in ascending order.
pub open spec fn spec_domain_evidence(eps: Seq<EpisodeView>, c: EvidenceAggregationConfig) -> Seq<
    DomainEvidenceView,
> {
    let cands = promoted(eps);
    sort_dedup(domains_of(cands)).map_values(
        |d: Seq<char>| domain_evidence_of(d, domain_group(cands, d), c),
    )
}

// ---------------------------------------------------------------------------
// Executable functions
// ---------------------------------------------------------------------------

/// A copy of a list of strings.
pub fn copy_strings(v: &Vec<String>) -> (r: Vec<String>)
    ensures
        views(r@) == views(v@),
{
    let mut r: Vec<String> = Vec::new();
    let mut i: usize = 0;
    while i < v.len()
        invariant
            0 <= i <= v.len(),
            r@.len() == i,
            forall|k: int| 0 <= k < i ==> #[trigger] r@[k]@ == v@[k]@,
        decreases v.len() - i,
    {
        r.push(v[i].clone());
        i += 1;
    }
    assert(views(r@) =~= views(v@));
    r
}

/// A copy of an episode.
pub fn copy_episode(e: &MemoryEpisode) -> (r: MemoryEpisode)
    ensures
        r@ == e@,
{
    MemoryEpisode {
        id: e.id.clone(),
        task_class: crate::message::copy_opt_string(&e.task_class),
        user_goal: e.user_goal.clone(),
        route: copy_strings(&e.route),
        domains: copy_strings(&e.domains),
        tools: copy_strings(&e.tools),
        result: e.result,
        output_summary: crate::message::copy_opt_string(&e.output_summary),
        created_at_epoch_secs: e.created_at_epoch_secs,
        promote_candidate: e.promote_candidate,
    }
}

/// Whether two string lists hold the same strings.
fn eq_strings(a: &Vec<String>, b: &Vec<String>) -> (r: bool)
    ensures
        r == (views(a@) == views(b@)),
{
    if a.len() != b.len() {
        assert(views(a@).len() != views(b@).len());
        return false;
    }
    let mut k: usize = 0;
    while k < a.len()
        invariant
            a.len() == b.len(),
            0 <= k <= a.len(),
            forall|j: int| 0 <= j < k ==> a@[j]@ == b@[j]@,
        decreases a.len() - k,
    {
        if a[k] != b[k] {
            assert(views(a@)[k as int] != views(b@)[k as int]);
            return false;
        }
        k += 1;
    }
    assert(views(a@) =~= views(b@));
    true
}

/// Whether `v` holds a list equal to `x`.
fn contains_route(v: &Vec<Vec<String>>, x: &Vec<String>) -> (r: bool)
    ensures
        r == views2(v@).contains(views(x@)),
{
    let mut i: usize = 0;
    while i < v.len()
        invariant
            0 <= i <= v.len(),
            forall|j: int| 0 <= j < i ==> views(v@[j]@) != views(x@),
        decreases v.len() - i,
    {
        if eq_strings(&v[i], x) {
            assert(views2(v@)[i as int] == views(x@));
            return true;
        }
        i += 1;
    }
    assert forall|j: int| 0 <= j < views2(v@).len() implies views2(v@)[j] != views(x@) by {
        assert(views2(v@)[j] == views(v@[j]@));
    }
    false
}

/// Distinct routes of `items` in first-seen order, at most `max`.
fn dedup_vec_of_vec(items: &Vec<Vec<String>>, max: usize) -> (r: Vec<Vec<String>>)
    ensures
        views2(r@) == dedup_limit(seq![], views2(items@), max as nat),
{
    let ghost sv = views2(items@);
    let mut acc: Vec<Vec<String>> = Vec::new();
    let mut i: usize = 0;
    assert(sv.skip(0) == sv);
    assert(views2(acc@) =~= Seq::<Seq<Seq<char>>>::empty());
    while i < items.len() && acc.len() < max
        invariant
            0 <= i <= items.len(),
            sv == views2(items@),
            dedup_limit(seq![], sv, max as nat) == dedup_limit(views2(acc@), sv.skip(i as int), max as nat),
        decreases items.len() - i,
    {
        assert(sv.skip(i as int)[0] == views(items@[i as int]@));
        assert(sv.skip(i as int).drop_first() == sv.skip(i + 1));
        if !contains_route(&acc, &items[i]) {
            let ghost before = views2(acc@);
            acc.push(copy_strings(&items[i]));
            assert(views2(acc@) =~= before.push(views(items@[i as int]@)));
        }
        i += 1;
    }
    proof {
        if i == items.len() {
            assert(sv.skip(i as int).len() == 0);
        }
    }
    acc
}

/// Distinct strings of `items` in first-seen order, at most `max`.
fn dedup_strings(items: &Vec<Vec<char>>, max: usize) -> (r: Vec<Vec<char>>)
    ensures
        vviews(r@) == dedup_limit(seq![], vviews(items@), max as nat),
{
    let ghost sv = vviews(items@);
    let mut acc: Vec<Vec<char>> = Vec::new();
    let mut i: usize = 0;
    assert(sv.skip(0) == sv);
    assert(vviews(acc@) =~= Seq::<Seq<char>>::empty());
    while i < items.len() && acc.len() < max
        invariant
            0 <= i <= items.len(),
            sv == vviews(items@),
            dedup_limit(seq![], sv, max as nat) == dedup_limit(vviews(acc@), sv.skip(i as int), max as nat),
        decreases items.len() - i,
    {
        assert(sv.skip(i as int)[0] == items@[i as int]@);
        assert(sv.skip(i as int).drop_first() == sv.skip(i + 1));
        if !contains_vec_of(&acc, &items[i]) {
            let ghost before = vviews(acc@);
            acc.push(copy_chars(&items[i]));
            assert(vviews(acc@) =~= before.push(items@[i as int]@));
        }
        i += 1;
    }
    proof {
        if i == items.len() {
            assert(sv.skip(i as int).len() == 0);
        }
    }
    acc
}

/// What a group of episodes contributes to its evidence.
struct GroupFacts {
    routes: Vec<Vec<String>>,
    tools: Vec<Vec<char>>,
    task_classes: Vec<Vec<char>>,
    success: u32,
    failure: u32,
    latest: u64,
}

/// Routes of successes, tools, task classes, counts and latest time of a group.
fn group_facts(g: &Vec<MemoryEpisode>) -> (f: GroupFacts)
    requires
        g.len() <= u32::MAX,
    ensures
        views2(f.routes@) == success_routes(episodes_view(g@)),
        vviews(f.tools@) == tools_of(episodes_view(g@)),
        vviews(f.task_classes@) == task_classes_of(episodes_view(g@)),
        f.success == count_result(episodes_view(g@), MemoryEpisodeResult::Success),
        f.failure == count_result(episodes_view(g@), MemoryEpisodeResult::Failure),
        f.latest == latest(episodes_view(g@)),
{
    let ghost gv = episodes_view(g@);
    let mut f = GroupFacts {
        routes: Vec::new(),
        tools: Vec::new(),
        task_classes: Vec::new(),
        success: 0,
        failure: 0,
        latest: 0,
    };
    assert(views2(f.routes@) =~= Seq::<Seq<Seq<char>>>::empty());
    assert(vviews(f.tools@) =~= Seq::<Seq<char>>::empty());
    assert(vviews(f.task_classes@) =~= Seq::<Seq<char>>::empty());
    let mut i: usize = 0;
    while i < g.len()
        invariant
            0 <= i <= g.len(),
            g.len() <= u32::MAX,
            gv == episodes_view(g@),
            views2(f.routes@) == success_routes(gv.take(i as int)),
            vviews(f.tools@) == tools_of(gv.take(i as int)),
            vviews(f.task_classes@) == task_classes_of(gv.take(i as int)),
            f.success == count_result(gv.take(i as int), MemoryEpisodeResult::Success),
            f.failure == count_result(gv.take(i as int), MemoryEpisodeResult::Failure),
            f.success + f.failure <= i,
            f.latest == latest(gv.take(i as int)),
        decreases g.len() - i,
    {
        assert(gv.take(i + 1).drop_last() == gv.take(i as int));
        assert(gv.take(i + 1).last() == g@[i as int]@);
        let e = &g[i];
        let ghost r0 = views2(f.routes@);
        match e.result {
            MemoryEpisodeResult::Success => {
                f.routes.push(copy_strings(&e.route));
                f.success = f.success + 1;
                assert(views2(f.routes@) =~= r0.push(e@.route));
            },
            MemoryEpisodeResult::Failure => {
                f.failure = f.failure + 1;
            },
            MemoryEpisodeResult::Partial => {},
        }
        assert(views2(f.routes@) =~= r0 + (if e@.result == MemoryEpisodeResult::Success {
            seq![e@.route]
        } else {
            Seq::<Seq<Seq<char>>>::empty()
        }));
        let ghost t0 = vviews(f.tools@);
        let mut ts = chars_all(&e.tools);
        f.tools.append(&mut ts);
        assert(vviews(f.tools@) =~= t0 + e@.tools);
        let ghost c0 = vviews(f.task_classes@);
        match &e.task_class {
            Some(tc) => {
                f.task_classes.push(crate::text::chars_of(tc.as_str()));
                assert(vviews(f.task_classes@) =~= c0.push(tc@));
            },
            None => {},
        }
        assert(vviews(f.task_classes@) =~= c0 + match e@.task_class {
            Some(tc) => seq![tc],
            None => Seq::<Seq<char>>::empty(),
        });
        if e.created_at_epoch_secs > f.latest {
            f.latest = e.created_at_epoch_secs;
        }
        i += 1;
    }
    assert(gv.take(g.len() as int) == gv);
    f
}

/// The episodes of `eps` that satisfy the group test for `key`
/// (task class equal to `key`, or domains holding `key`).
fn select_group(eps: &Vec<MemoryEpisode>, key: &Vec<char>, by_domain: bool) -> (g: Vec<MemoryEpisode>)
    ensures
        !by_domain ==> episodes_view(g@) == task_group(episodes_view(eps@), key@),
        by_domain ==> episodes_view(g@) == domain_group(episodes_view(eps@), key@),
        g.len() <= eps.len(),
{
    let ghost ev = episodes_view(eps@);
    let ghost pred = if by_domain {
        |e: EpisodeView| e.domains.contains(key@)
    } else {
        |e: EpisodeView| e.task_class == Some(key@)
    };
    let mut g: Vec<MemoryEpisode> = Vec::new();
    let mut i: usize = 0;
    assert(episodes_view(g@) =~= ev.take(0).filter(pred));
    while i < eps.len()
        invariant
            0 <= i <= eps.len(),
            ev == episodes_view(eps@),
            pred == (if by_domain {
                |e: EpisodeView| e.domains.contains(key@)
            } else {
                |e: EpisodeView| e.task_class == Some(key@)
            }),
            episodes_view(g@) == ev.take(i as int).filter(pred),
            g.len() <= i,
        decreases eps.len() - i,
    {
        assert(ev.take(i + 1).drop_last() == ev.take(i as int));
        assert(ev.take(i + 1).last() == eps@[i as int]@);
        let e = &eps[i];
        let hit = if by_domain {
            let ds = chars_all(&e.domains);
            contains_vec_of(&ds, key)
        } else {
            match &e.task_class {
                Some(tc) => {
                    let t = crate::text::chars_of(tc.as_str());
                    eq_vec(&t, key)
                },
                None => false,
            }
        };
        assert(hit == pred(eps@[i as int]@));
        let ghost nxt = ev.take(i + 1);
        proof {
            reveal(Seq::filter);
        }
        assert(nxt.filter(pred) == (if pred(nxt.last()) {
            nxt.drop_last().filter(pred).push(nxt.last())
        } else {
            nxt.drop_last().filter(pred)
        }));
        if hit {
            let ghost before = episodes_view(g@);
            g.push(copy_episode(e));
            assert(episodes_view(g@) =~= before.push(eps@[i as int]@));
        }
        i += 1;
    }
    assert(ev.take(eps.len() as int) == ev);
    g
}

/// Groups the promotion candidates among `episodes` into task evidence (per
/// task class) and domain evidence (per domain), each in ascending key order:
/// counts of successes and failures, the latest creation time, distinct
/// successful routes and tools (or task classes) in first-seen order within
/// the configured limits.
pub fn aggregate_evidence_from_episodes(
    episodes: &[MemoryEpisode],
    config: EvidenceAggregationConfig,
) -> (r: EvidenceAggregationResult)
    requires
        episodes.len() <= u32::MAX,
    ensures
        r.task_evidence@.map_values(|t: TaskEvidence| t@) == spec_task_evidence(
            episodes_view(episodes@),
            config,
        ),
        r.domain_evidence@.map_values(|d: DomainEvidence| d@) == spec_domain_evidence(
            episodes_view(episodes@),
            config,
        ),
{
    let ghost ev = episodes_view(episodes@);
    let ghost is_candidate = |e: EpisodeView| e.promote_candidate;
    let mut cands: Vec<MemoryEpisode> = Vec::new();
    let mut i: usize = 0;
    assert(episodes_view(cands@) =~= ev.take(0).filter(is_candidate));
    while i < episodes.len()
        invariant
            0 <= i <= episodes.len(),
            ev == episodes_view(episodes@),
            is_candidate == (|e: EpisodeView| e.promote_candidate),
            episodes_view(cands@) == ev.take(i as int).filter(is_candidate),
            cands.len() <= i,
        decreases episodes.len() - i,
    {
        assert(ev.take(i + 1).drop_last() == ev.take(i as int));
        assert(ev.take(i + 1).last() == episodes@[i as int]@);
        let ghost nxt = ev.take(i + 1);
        proof {
            reveal(Seq::filter);
        }
        assert(nxt.filter(is_candidate) == (if is_candidate(nxt.last()) {
            nxt.drop_last().filter(is_candidate).push(nxt.last())
        } else {
            nxt.drop_last().filter(is_candidate)
        }));
        if episodes[i].promote_candidate {
            let ghost before = episodes_view(cands@);
            cands.push(copy_episode(&episodes[i]));
            assert(episodes_view(cands@) =~= before.push(episodes@[i as int]@));
        }
        i += 1;
    }
    assert(ev.take(episodes.len() as int) == ev);
    let ghost cv = episodes_view(cands@);
    assert(cv == promoted(ev));

    let all = group_facts(&cands);
    let task_keys = sort_dedup_vecs(&all.task_classes);
    let mut domain_list: Vec<Vec<char>> = Vec::new();
    let mut d: usize = 0;
    assert(vviews(domain_list@) =~= domains_of(cv.take(0)));
    while d < cands.len()
        invariant
            0 <= d <= cands.len(),
            cv == episodes_view(cands@),
            vviews(domain_list@) == domains_of(cv.take(d as int)),
        decreases cands.len() - d,
    {
        assert(cv.take(d + 1).drop_last() == cv.take(d as int));
        assert(cv.take(d + 1).last() == cands@[d as int]@);
        let ghost before = vviews(domain_list@);
        let mut ds = chars_all(&cands[d].domains);
        domain_list.append(&mut ds);
        assert(vviews(domain_list@) =~= before + cands@[d as int]@.domains);
        d += 1;
    }
    assert(cv.take(cands.len() as int) == cv);
    let domain_keys = sort_dedup_vecs(&domain_list);

    let ghost tspec = spec_task_evidence(ev, config);
    let mut task_evidence: Vec<TaskEvidence> = Vec::new();
    let mut k: usize = 0;
    while k < task_keys.len()
        invariant
            0 <= k <= task_keys.len(),
            cv == episodes_view(cands@),
            cv == promoted(ev),
            cands.len() <= u32::MAX,
            vviews(task_keys@) == sort_dedup(task_classes_of(cv)),
            tspec == spec_task_evidence(ev, config),
            task_evidence@.len() == k,
            forall|q: int| 0 <= q < k ==> #[trigger] task_evidence@[q]@ == tspec[q],
        decreases task_keys.len() - k,
    {
        let g = select_group(&cands, &task_keys[k], false);
        let f = group_facts(&g);
        let routes = dedup_vec_of_vec(&f.routes, config.max_routes_per_task);
        let tools = dedup_strings(&f.tools, config.max_tools_per_task);
        let t = TaskEvidence {
            task_class: string_of(&task_keys[k]),
            successful_routes: routes,
            tools: strings_all(&tools),
            output_fields: Vec::new(),
            success_count: f.success,
            failure_count: f.failure,
            last_used_epoch_secs: f.latest,
        };
        assert(vviews(task_keys@)[k as int] == task_keys@[k as int]@);
        assert(views(t.output_fields@) =~= Seq::<Seq<char>>::empty());
        assert(t@ == tspec[k as int]);
        task_evidence.push(t);
        k += 1;
    }
    assert(task_evidence@.map_values(|t: TaskEvidence| t@) =~= tspec);

    let ghost dspec = spec_domain_evidence(ev, config);
    let mut domain_evidence: Vec<DomainEvidence> = Vec::new();
    let mut k: usize = 0;
    while k < domain_keys.len()
        invariant
            0 <= k <= domain_keys.len(),
            cv == episodes_view(cands@),
            cv == promoted(ev),
            cands.len() <= u32::MAX,
            vviews(domain_keys@) == sort_dedup(domains_of(cv)),
            dspec == spec_domain_evidence(ev, config),
            domain_evidence@.len() == k,
            forall|q: int| 0 <= q < k ==> #[trigger] domain_evidence@[q]@ == dspec[q],
        decreases domain_keys.len() - k,
    {
        let g = select_group(&cands, &domain_keys[k], true);
        let f = group_facts(&g);
        let routes = dedup_vec_of_vec(&f.routes, config.max_routes_per_domain);
        let classes = dedup_strings(&f.task_classes, usize::MAX);
        let t = DomainEvidence {
            domain: string_of(&domain_keys[k]),
            task_classes: strings_all(&classes),
            successful_routes: routes,
            field_hints: Vec::new(),
            success_count: f.success,
            failure_count: f.failure,
            last_verified_epoch_secs: f.latest,
        };
        assert(vviews(domain_keys@)[k as int] == domain_keys@[k as int]@);
        assert(views(t.field_hints@) =~= Seq::<Seq<char>>::empty());
        assert(t@ == dspec[k as int]);
        domain_evidence.push(t);
        k += 1;
    }
    assert(domain_evidence@.map_values(|d: DomainEvidence| d@) =~= dspec);
    EvidenceAggregationResult { task_evidence, domain_evidence }
}

/// No item appears twice.
pub open spec fn no_duplicates<A>(s: Seq<A>) -> bool {
    forall|i: int, j: int| 0 <= i < j < s.len() ==> s[i] != s[j]
}

/// Keeping distinct items up to a limit yields distinct items drawn from the
/// input, no more than the limit (or the items already kept, if more).
pub proof fn lemma_dedup_limit<A>(acc: Seq<A>, s: Seq<A>, max: nat)
    requires
        no_duplicates(acc),
    ensures
        no_duplicates(dedup_limit(acc, s, max)),
        dedup_limit(acc, s, max).len() <= if acc.len() > max {
            acc.len()
        } else {
            max
        },
        forall|x: A| #[trigger] dedup_limit(acc, s, max).contains(x) ==> acc.contains(x) || s.contains(x),
        acc.len() <= dedup_limit(acc, s, max).len(),
    decreases s.len(),
{
    if s.len() == 0 || acc.len() >= max {
    } else if acc.contains(s[0]) {
        lemma_dedup_limit(acc, s.drop_first(), max);
        assert forall|x: A| #[trigger] dedup_limit(acc, s, max).contains(x) implies acc.contains(x)
            || s.contains(x) by {
            if s.drop_first().contains(x) {
                let k = choose|k: int| 0 <= k < s.drop_first().len() && s.drop_first()[k] == x;
                assert(s[k + 1] == x);
            }
        }
    } else {
        let a2 = acc.push(s[0]);
        assert forall|i: int, j: int| 0 <= i < j < a2.len() implies a2[i] != a2[j] by {
            if j == acc.len() {
                assert(a2[i] == acc[i]);
                if acc[i] == s[0] {
                    assert(acc.contains(s[0]));
                }
            }
        }
        lemma_dedup_limit(a2, s.drop_first(), max);
        assert forall|x: A| #[trigger] dedup_limit(acc, s, max).contains(x) implies acc.contains(x)
            || s.contains(x) by {
            if a2.contains(x) {
                let k = choose|k: int| 0 <= k < a2.len() && a2[k] == x;
                if k < acc.len() {
                    assert(acc[k] == x);
                } else {
                    assert(s[0] == x);
                }
            }
            if s.drop_first().contains(x) {
                let k = choose|k: int| 0 <= k < s.drop_first().len() && s.drop_first()[k] == x;
                assert(s[k + 1] == x);
            }
        }
    }
}

/// Aggregated evidence has one entry per key, in ascending key order: task
/// evidence per task class of the promoted episodes, domain evidence per
/// domain they name; every such key has an entry.
pub proof fn lemma_evidence_one_entry_per_key(eps: Seq<EpisodeView>, c: EvidenceAggregationConfig)
    ensures
        forall|i: int, j: int|
            0 <= i < j < spec_task_evidence(eps, c).len() ==> lex_lt(
                #[trigger] spec_task_evidence(eps, c)[i].task_class,
                #[trigger] spec_task_evidence(eps, c)[j].task_class,
            ),
        forall|tc: Seq<char>|
            (exists|i: int|
                0 <= i < spec_task_evidence(eps, c).len() && #[trigger] spec_task_evidence(
                    eps,
                    c,
                )[i].task_class == tc) <==> #[trigger] task_classes_of(promoted(eps)).contains(tc),
        forall|i: int, j: int|
            0 <= i < j < spec_domain_evidence(eps, c).len() ==> lex_lt(
                #[trigger] spec_domain_evidence(eps, c)[i].domain,
                #[trigger] spec_domain_evidence(eps, c)[j].domain,
            ),
        forall|d: Seq<char>|
            (exists|i: int|
                0 <= i < spec_domain_evidence(eps, c).len() && #[trigger] spec_domain_evidence(
                    eps,
                    c,
                )[i].domain == d) <==> #[trigger] domains_of(promoted(eps)).contains(d),
{
    let cands = promoted(eps);
    let tk = sort_dedup(task_classes_of(cands));
    let dk = sort_dedup(domains_of(cands));
    lemma_sort_dedup(task_classes_of(cands));
    lemma_sort_dedup(domains_of(cands));
    let ts = spec_task_evidence(eps, c);
    let ds = spec_domain_evidence(eps, c);
    assert forall|i: int| 0 <= i < ts.len() implies #[trigger] ts[i].task_class == tk[i] by {}
    assert forall|i: int| 0 <= i < ds.len() implies #[trigger] ds[i].domain == dk[i] by {}
    assert forall|tc: Seq<char>|
        (exists|i: int| 0 <= i < ts.len() && #[trigger] ts[i].task_class == tc)
            <==> #[trigger] task_classes_of(cands).contains(tc) by {
        if task_classes_of(cands).contains(tc) {
            assert(tk.contains(tc));
            let k = choose|k: int| 0 <= k < tk.len() && tk[k] == tc;
            assert(ts[k].task_class == tc);
        }
        if exists|i: int| 0 <= i < ts.len() && #[trigger] ts[i].task_class == tc {
            let k = choose|k: int| 0 <= k < ts.len() && #[trigger] ts[k].task_class == tc;
            assert(tk[k] == tc);
            assert(tk.contains(tc));
        }
    }
    assert forall|d: Seq<char>|
        (exists|i: int| 0 <= i < ds.len() && #[trigger] ds[i].domain == d)
            <==> #[trigger] domains_of(cands).contains(d) by {
        if domains_of(cands).contains(d) {
            assert(dk.contains(d));
            let k = choose|k: int| 0 <= k < dk.len() && dk[k] == d;
            assert(ds[k].domain == d);
        }
        if exists|i: int| 0 <= i < ds.len() && #[trigger] ds[i].domain == d {
            let k = choose|k: int| 0 <= k < ds.len() && #[trigger] ds[k].domain == d;
            assert(dk[k] == d);
            assert(dk.contains(d));
        }
    }
}

} // verus!
