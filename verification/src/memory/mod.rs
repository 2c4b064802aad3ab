//! Memory of past crawling tasks: episodes, evidence aggregated from them, and
//! the context rendered for the next task.
use vstd::prelude::*;

pub mod context;
pub mod episode_builder;
pub mod evidence;
pub mod evidence_aggregator;

pub use context::{
    next_context_read, ContextPlace, ContextRead,
    distinct_domains, episode_limit, wants_task_evidence, MemoryContext, MemoryContextBudget,
    MemoryContextLoader, MemoryContextQuery,
};
pub use episode_builder::{
    build_memory_episode, extract_hosts, truncate_to_chars, MemoryEpisodeBuildConfig,
    MemoryEpisodeBuildInput,
};
pub use evidence::{
    sanitize_filename, AccessEvidence, AccessStatus, DomainEvidence, EvidenceStore, TaskEvidence,
};
pub use evidence_aggregator::{
    aggregate_evidence_from_episodes, EvidenceAggregationConfig, EvidenceAggregationResult,
};

use crate::paths::{join_path, path_join};
use crate::text::{chars_of, string_of};

verus! {

/// One finished task, as remembered.
#[derive(Debug, Clone, PartialEq, Eq)]
pub struct MemoryEpisode {
    pub id: String,
    pub task_class: Option<String>,
    pub user_goal: String,
    pub route: Vec<String>,
    pub domains: Vec<String>,
    pub tools: Vec<String>,
    pub result: MemoryEpisodeResult,
    pub output_summary: Option<String>,
    pub created_at_epoch_secs: u64,
    pub promote_candidate: bool,
}

/// What a suggested skill is about.
#[derive(Debug, Clone, Copy, PartialEq, Eq, Structural)]
pub enum SkillSuggestionKind {
    Task,
    Domain,
}

/// How a task ended.
#[derive(Debug, Clone, Copy, PartialEq, Eq, Structural)]
pub enum MemoryEpisodeResult {
    Success,
    Partial,
    Failure,
}

/// An episode as values.
pub struct EpisodeView {
    pub id: Seq<char>,
    pub task_class: Option<Seq<char>>,
    pub user_goal: Seq<char>,
    pub route: Seq<Seq<char>>,
    pub domains: Seq<Seq<char>>,
    pub tools: Seq<Seq<char>>,
    pub result: MemoryEpisodeResult,
    pub output_summary: Option<Seq<char>>,
    pub created_at_epoch_secs: u64,
    pub promote_candidate: bool,
}

impl View for MemoryEpisode {
    type V = EpisodeView;

    open spec fn view(&self) -> EpisodeView {
        EpisodeView {
            id: self.id@,
            task_class: crate::message::opt_view(self.task_class),
            user_goal: self.user_goal@,
            route: crate::text::views(self.route@),
            domains: crate::text::views(self.domains@),
            tools: crate::text::views(self.tools@),
            result: self.result,
            output_summary: crate::message::opt_view(self.output_summary),
            created_at_epoch_secs: self.created_at_epoch_secs,
            promote_candidate: self.promote_candidate,
        }
    }
}

/// Views of a sequence of episodes.
pub open spec fn episodes_view(s: Seq<MemoryEpisode>) -> Seq<EpisodeView> {
    s.map_values(|e: MemoryEpisode| e@)
}

/// Where episodes are kept: one JSON line per episode in
/// `<root>/memory/episodes.jsonl`.
#[derive(Debug, Clone, PartialEq, Eq)]
pub struct EpisodeStore {
    pub(crate) root: String,
}

/// The episode log under `root`.
pub open spec fn episodes_path_of(root: Seq<char>) -> Seq<char> {
    path_join(path_join(root, "memory"@), "episodes.jsonl"@)
}

/// The last `limit` episodes of `all`, oldest first.
pub open spec fn recent_of(all: Seq<EpisodeView>, limit: nat) -> Seq<EpisodeView> {
    if all.len() <= limit {
        all
    } else {
        all.skip(all.len() - limit)
    }
}

impl EpisodeStore {
    /// The directory the store lives under.
    pub closed spec fn root_path(&self) -> Seq<char> {
        self.root@
    }

    /// A store under `root`.
    pub fn new(root: &str) -> (s: Self)
        ensures
            s.root_path() == root@,
    {
        EpisodeStore { root: string_of(&chars_of(root)) }
    }

    /// `<root>/memory/episodes.jsonl`.
    pub fn episodes_path(&self) -> (r: String)
        ensures
            r@ == episodes_path_of(self.root_path()),
    {
        let m = join_path(self.root.as_str(), "memory");
        join_path(m.as_str(), "episodes.jsonl")
    }
}

/// The last `limit` of the stored episodes `all`, oldest first, as loading
/// recent episodes keeps them.
pub fn take_recent_episodes(all: Vec<MemoryEpisode>, limit: usize) -> (r: Vec<MemoryEpisode>)
    ensures
        episodes_view(r@) == recent_of(episodes_view(all@), limit as nat),
{
    let mut all = all;
    let start: usize = if all.len() > limit {
        all.len() - limit
    } else {
        0
    };
    let ghost before = all@;
    let r = all.split_off(start);
    assert(r@ == before.skip(start as int));
    assert(episodes_view(r@) =~= recent_of(episodes_view(before), limit as nat));
    r
}

} // verus!
