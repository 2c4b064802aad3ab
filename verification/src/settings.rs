//! User settings and the defaults that stand in for unset values.
use vstd::prelude::*;

use crate::text::{chars_of, string_of};

verus! {

/// Settings read from `settings.json`; every field is optional.
#[derive(Debug, Clone, PartialEq, Eq)]
pub struct Settings {
    /// Run the browser headless (default: true).
    pub headless: Option<bool>,
    /// Maximum agent loop iterations (default: 50).
    pub max_steps: Option<u32>,
    /// Last used model, as `provider/model`.
    pub model: Option<String>,
    /// Reasoning effort for reasoning models (default: `high`).
    pub reasoning_effort: Option<String>,
    /// Directory for saved files (default: `workspace`).
    pub workspace_dir: Option<String>,
    /// Use the classic line REPL (default: false).
    pub classic_repl: Option<bool>,
    /// Input tokens at which a session is compacted (default: 200000).
    pub auto_compact_input_tokens: Option<u64>,
    /// Concurrent sub-agents per parent (default: 5).
    pub max_concurrent_per_parent: Option<u32>,
    /// Maximum fork depth (default: 3).
    pub max_fork_depth: Option<u32>,
    /// Maximum agents across all parents (default: 10).
    pub max_total_agents: Option<u32>,
    /// Maximum steps of a forked child agent (default: 15).
    pub fork_child_max_steps: Option<u32>,
    /// Seconds to wait for sub-agents (default: 60).
    pub fork_wait_timeout_secs: Option<u32>,
}

/// The value of an optional string setting.
pub open spec fn opt_str_view(o: Option<String>) -> Option<Seq<char>> {
    match o {
        Some(s) => Some(s@),
        None => None,
    }
}

/// The value of `o`, or `d` when unset.
pub open spec fn or_default<T>(o: Option<T>, d: T) -> T {
    match o {
        Some(v) => v,
        None => d,
    }
}

impl Default for Settings {
    fn default() -> (s: Self)
        ensures
            s.headless == Some(true),
            s.max_steps == Some(50u32),
            s.model.is_none(),
            opt_str_view(s.reasoning_effort) == Some("high"@),
            opt_str_view(s.workspace_dir) == Some("workspace"@),
            s.classic_repl == Some(false),
            s.auto_compact_input_tokens == Some(200_000u64),
            s.max_concurrent_per_parent == Some(5u32),
            s.max_fork_depth == Some(3u32),
            s.max_total_agents == Some(10u32),
            s.fork_child_max_steps == Some(15u32),
            s.fork_wait_timeout_secs == Some(60u32),
    {
        Settings {
            headless: Some(true),
            max_steps: Some(50),
            model: None,
            reasoning_effort: Some(string_of(&chars_of("high"))),
            workspace_dir: Some(string_of(&chars_of("workspace"))),
            classic_repl: Some(false),
            auto_compact_input_tokens: Some(200_000),
            max_concurrent_per_parent: Some(5),
            max_fork_depth: Some(3),
            max_total_agents: Some(10),
            fork_child_max_steps: Some(15),
            fork_wait_timeout_secs: Some(60),
        }
    }
}

/// Headless mode, true when unset.
pub fn settings_get_headless(s: &Settings) -> (r: bool)
    ensures
        r == or_default(s.headless, true),
{
    match s.headless {
        Some(v) => v,
        None => true,
    }
}

/// Maximum agent loop iterations, 50 when unset.
pub fn settings_get_max_steps(s: &Settings) -> (r: u32)
    ensures
        r == or_default(s.max_steps, 50u32),
{
    match s.max_steps {
        Some(v) => v,
        None => 50,
    }
}

/// Directory for saved files, `workspace` when unset.
pub fn settings_get_workspace_dir(s: &Settings) -> (r: &str)
    ensures
        r@ == or_default(opt_str_view(s.workspace_dir), "workspace"@),
{
    match &s.workspace_dir {
        Some(w) => w.as_str(),
        None => "workspace",
    }
}

/// Compaction threshold in input tokens, 200000 when unset.
pub fn settings_get_auto_compact_tokens(s: &Settings) -> (r: u64)
    ensures
        r == or_default(s.auto_compact_input_tokens, 200_000u64),
{
    match s.auto_compact_input_tokens {
        Some(v) => v,
        None => 200_000,
    }
}

/// Concurrent sub-agents per parent, 5 when unset.
pub fn settings_get_max_concurrent_per_parent(s: &Settings) -> (r: u32)
    ensures
        r == or_default(s.max_concurrent_per_parent, 5u32),
{
    match s.max_concurrent_per_parent {
        Some(v) => v,
        None => 5,
    }
}

/// Maximum fork depth, 3 when unset.
pub fn settings_get_max_fork_depth(s: &Settings) -> (r: u32)
    ensures
        r == or_default(s.max_fork_depth, 3u32),
{
    match s.max_fork_depth {
        Some(v) => v,
        None => 3,
    }
}

/// Maximum agents across all parents, 10 when unset.
pub fn settings_get_max_total_agents(s: &Settings) -> (r: u32)
    ensures
        r == or_default(s.max_total_agents, 10u32),
{
    match s.max_total_agents {
        Some(v) => v,
        None => 10,
    }
}

/// Maximum steps of a forked child agent, 15 when unset.
pub fn settings_get_fork_child_max_steps(s: &Settings) -> (r: u32)
    ensures
        r == or_default(s.fork_child_max_steps, 15u32),
{
    match s.fork_child_max_steps {
        Some(v) => v,
        None => 15,
    }
}

/// Seconds to wait for sub-agents, 60 when unset.
pub fn settings_get_fork_wait_timeout_secs(s: &Settings) -> (r: u32)
    ensures
        r == or_default(s.fork_wait_timeout_secs, 60u32),
{
    match s.fork_wait_timeout_secs {
        Some(v) => v,
        None => 60,
    }
}

/// Every getter of a default `Settings` returns the value stored in it: the
/// defaults of `Settings::default` and of the getters agree.
pub proof fn lemma_default_settings_agree_with_getters(s: Settings)
    requires
        s.headless == Some(true),
        s.max_steps == Some(50u32),
        opt_str_view(s.workspace_dir) == Some("workspace"@),
        s.auto_compact_input_tokens == Some(200_000u64),
        s.max_concurrent_per_parent == Some(5u32),
        s.max_fork_depth == Some(3u32),
        s.max_total_agents == Some(10u32),
        s.fork_child_max_steps == Some(15u32),
        s.fork_wait_timeout_secs == Some(60u32),
    ensures
        or_default(s.headless, true) == true,
        or_default(s.max_steps, 50u32) == 50,
        or_default(opt_str_view(s.workspace_dir), "workspace"@) == "workspace"@,
        or_default(s.auto_compact_input_tokens, 200_000u64) == 200_000,
        or_default(s.max_concurrent_per_parent, 5u32) == 5,
        or_default(s.max_fork_depth, 3u32) == 3,
        or_default(s.max_total_agents, 10u32) == 10,
        or_default(s.fork_child_max_steps, 15u32) == 15,
        or_default(s.fork_wait_timeout_secs, 60u32) == 60,
{
}

} // verus!
