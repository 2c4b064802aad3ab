//! Plain-text reports shown by the interactive shell: model, cost, compaction,
//! status and version.
use vstd::prelude::*;

use crate::config::loader::merged_lookup;
use crate::session::{json_text_of, json_value_text, JView};
use crate::config::{ConfigEntry, RuntimeConfig};
use crate::message::TokenUsage;
use crate::text::{
    chars_of, dec, ellipsize, ellipsize_vec, eq_str, eq_vec, join, join_vecs, push_all, push_dec,
    push_str, string_of, vviews,
};

verus! {

/// Date stamped into the version report.
pub const DEFAULT_DATE: &'static str = "2026-03-31";

/// Version of this package.
pub const VERSION: &'static str = "0.1.0";

/// Where the current session is stored, if anywhere.
#[derive(Debug, Clone, PartialEq, Eq)]
pub struct StatusContext {
    pub session_path: Option<String>,
}

/// Counters shown by the status report.
#[derive(Debug, Clone, Copy)]
pub struct StatusUsage {
    pub message_count: usize,
    pub turns: u32,
    pub latest: TokenUsage,
    pub cumulative: TokenUsage,
    pub estimated_tokens: usize,
}

/// Text of the model report.
pub open spec fn model_report(model: Seq<char>, message_count: nat, turns: nat) -> Seq<char> {
    "Model\n  Current model    "@ + model + "\n  Session messages "@ + dec(message_count)
        + "\n  Session turns    "@ + dec(turns)
        + "\n\nUsage\n  Inspect current model with /model\n  Switch models with /model <name>"@
}

/// Text of the model-switch report.
pub open spec fn model_switch_report(previous: Seq<char>, next: Seq<char>, message_count: nat) -> Seq<
    char,
> {
    "Model updated\n  Previous         "@ + previous + "\n  Current          "@ + next
        + "\n  Preserved msgs   "@ + dec(message_count)
}

/// Text of the cost report.
pub open spec fn cost_report(usage: TokenUsage) -> Seq<char> {
    "Cost\n  Input tokens     "@ + dec(usage.input_tokens as nat) + "\n  Output tokens    "@ + dec(
        usage.output_tokens as nat,
    ) + "\n  Cache create     "@ + dec(usage.cache_creation_input_tokens as nat)
        + "\n  Cache read       "@ + dec(usage.cache_read_input_tokens as nat)
        + "\n  Total tokens     "@ + dec(usage.spec_total())
}

/// Text of the compaction report.
pub open spec fn compact_report(removed: nat, resulting: nat, skipped: bool) -> Seq<char> {
    if skipped {
        "Compact\n  Result           skipped\n  Reason           session below compaction threshold\n  Messages kept    "@
            + dec(resulting)
    } else {
        "Compact\n  Result           compacted\n  Messages removed "@ + dec(removed)
            + "\n  Messages kept    "@ + dec(resulting)
    }
}

/// Text of the notice printed after an automatic compaction.
pub open spec fn auto_compaction_notice(removed: nat) -> Seq<char> {
    "[auto-compacted: removed "@ + dec(removed) + " messages]"@
}

/// The session shown by the status report: the stored path, or `live-repl`.
pub open spec fn session_label(context: StatusContext) -> Seq<char> {
    match context.session_path {
        Some(p) => p@,
        None => "live-repl"@,
    }
}

/// Text of the status report: a status section and a usage section, separated
/// by a blank line.
pub open spec fn status_report(model: Seq<char>, usage: StatusUsage, context: StatusContext) -> Seq<
    char,
> {
    "Status\n  Model            "@ + model + "\n  Messages         "@ + dec(
        usage.message_count as nat,
    ) + "\n  Turns            "@ + dec(usage.turns as nat) + "\n  Estimated tokens "@ + dec(
        usage.estimated_tokens as nat,
    ) + "\n  Session          "@ + session_label(context) + "\n\n"@
        + "Usage\n  Latest total     "@ + dec(usage.latest.spec_total())
        + "\n  Cumulative input "@ + dec(usage.cumulative.input_tokens as nat)
        + "\n  Cumulative output "@ + dec(usage.cumulative.output_tokens as nat)
        + "\n  Cumulative total "@ + dec(usage.cumulative.spec_total())
}

/// Text of the version report.
pub open spec fn version_report(version: Seq<char>, git_sha: Seq<char>, target: Seq<char>) -> Seq<
    char,
> {
    "AgenticCrawler\n  Version          "@ + version + "\n  Git SHA          "@ + git_sha
        + "\n  Target           "@ + target + "\n  Build date       "@ + DEFAULT_DATE@
}

/// The model report: current model and session size, with usage hints.
pub fn format_model_report(model: &str, message_count: usize, turns: u32) -> (r: String)
    ensures
        r@ == model_report(model@, message_count as nat, turns as nat),
{
    let mut v = chars_of("Model\n  Current model    ");
    push_str(&mut v, model);
    push_str(&mut v, "\n  Session messages ");
    push_dec(&mut v, message_count as u64);
    push_str(&mut v, "\n  Session turns    ");
    push_dec(&mut v, turns as u64);
    push_str(
        &mut v,
        "\n\nUsage\n  Inspect current model with /model\n  Switch models with /model <name>",
    );
    string_of(&v)
}

/// The report after switching models.
pub fn format_model_switch_report(previous: &str, next: &str, message_count: usize) -> (r: String)
    ensures
        r@ == model_switch_report(previous@, next@, message_count as nat),
{
    let mut v = chars_of("Model updated\n  Previous         ");
    push_str(&mut v, previous);
    push_str(&mut v, "\n  Current          ");
    push_str(&mut v, next);
    push_str(&mut v, "\n  Preserved msgs   ");
    push_dec(&mut v, message_count as u64);
    string_of(&v)
}

/// The token cost report.
pub fn format_cost_report(usage: TokenUsage) -> (r: String)
    ensures
        r@ == cost_report(usage),
{
    let mut v = chars_of("Cost\n  Input tokens     ");
    push_dec(&mut v, usage.input_tokens as u64);
    push_str(&mut v, "\n  Output tokens    ");
    push_dec(&mut v, usage.output_tokens as u64);
    push_str(&mut v, "\n  Cache create     ");
    push_dec(&mut v, usage.cache_creation_input_tokens as u64);
    push_str(&mut v, "\n  Cache read       ");
    push_dec(&mut v, usage.cache_read_input_tokens as u64);
    push_str(&mut v, "\n  Total tokens     ");
    push_dec(&mut v, usage.total_tokens());
    string_of(&v)
}

/// The report after a manual compaction.
pub fn format_compact_report(removed: usize, resulting_messages: usize, skipped: bool) -> (r: String)
    ensures
        r@ == compact_report(removed as nat, resulting_messages as nat, skipped),
{
    if skipped {
        let mut v = chars_of(
            "Compact\n  Result           skipped\n  Reason           session below compaction threshold\n  Messages kept    ",
        );
        push_dec(&mut v, resulting_messages as u64);
        string_of(&v)
    } else {
        let mut v = chars_of("Compact\n  Result           compacted\n  Messages removed ");
        push_dec(&mut v, removed as u64);
        push_str(&mut v, "\n  Messages kept    ");
        push_dec(&mut v, resulting_messages as u64);
        string_of(&v)
    }
}

/// The notice printed after an automatic compaction.
pub fn format_auto_compaction_notice(removed: usize) -> (r: String)
    ensures
        r@ == auto_compaction_notice(removed as nat),
{
    let mut v = chars_of("[auto-compacted: removed ");
    push_dec(&mut v, removed as u64);
    push_str(&mut v, " messages]");
    string_of(&v)
}

/// The status report: model, message and turn counts, estimated tokens and the
/// session, then the latest and cumulative token usage.
pub fn format_status_report(model: &str, usage: StatusUsage, context: &StatusContext) -> (r: String)
    ensures
        r@ == status_report(model@, usage, *context),
{
    let mut v = chars_of("Status\n  Model            ");
    push_str(&mut v, model);
    push_str(&mut v, "\n  Messages         ");
    push_dec(&mut v, usage.message_count as u64);
    push_str(&mut v, "\n  Turns            ");
    push_dec(&mut v, usage.turns as u64);
    push_str(&mut v, "\n  Estimated tokens ");
    push_dec(&mut v, usage.estimated_tokens as u64);
    push_str(&mut v, "\n  Session          ");
    match &context.session_path {
        Some(p) => push_str(&mut v, p.as_str()),
        None => push_str(&mut v, "live-repl"),
    }
    push_str(&mut v, "\n\n");
    push_str(&mut v, "Usage\n  Latest total     ");
    push_dec(&mut v, usage.latest.total_tokens());
    push_str(&mut v, "\n  Cumulative input ");
    push_dec(&mut v, usage.cumulative.input_tokens as u64);
    push_str(&mut v, "\n  Cumulative output ");
    push_dec(&mut v, usage.cumulative.output_tokens as u64);
    push_str(&mut v, "\n  Cumulative total ");
    push_dec(&mut v, usage.cumulative.total_tokens());
    string_of(&v)
}

/// A status context for the session stored at `session_path`, if any.
pub fn status_context(session_path: Option<&str>) -> (r: StatusContext)
    ensures
        match session_path {
            Some(p) => r.session_path.is_some() && r.session_path.unwrap()@ == p@,
            None => r.session_path.is_none(),
        },
{
    match session_path {
        Some(p) => StatusContext { session_path: Some(string_of(&chars_of(p))) },
        None => StatusContext { session_path: None },
    }
}

/// The version report for the commit and target recorded at build time;
/// either reads `unknown` when none was recorded.
pub fn render_version_report_with(git_sha: Option<&str>, target: Option<&str>) -> (r: String)
    ensures
        r@ == version_report(
            VERSION@,
            match git_sha {
                Some(g) => g@,
                None => "unknown"@,
            },
            match target {
                Some(t) => t@,
                None => "unknown"@,
            },
        ),
{
    let mut v = chars_of("AgenticCrawler\n  Version          ");
    push_str(&mut v, VERSION);
    push_str(&mut v, "\n  Git SHA          ");
    match git_sha {
        Some(g) => push_str(&mut v, g),
        None => push_str(&mut v, "unknown"),
    }
    push_str(&mut v, "\n  Target           ");
    match target {
        Some(t) => push_str(&mut v, t),
        None => push_str(&mut v, "unknown"),
    }
    push_str(&mut v, "\n  Build date       ");
    push_str(&mut v, DEFAULT_DATE);
    string_of(&v)
}

/// The version report of a build that recorded no commit or target: both
/// read `unknown`. A build that records them passes them to
/// `render_version_report_with`.
pub fn render_version_report() -> (r: String)
    ensures
        r@ == version_report(VERSION@, "unknown"@, "unknown"@),
{
    render_version_report_with(None, None)
}

/// The first `limit` characters of `value`, followed by `…` when `value` is
/// longer.
pub fn truncate_for_summary(value: &str, limit: usize) -> (r: String)
    ensures
        r@ == ellipsize(value@, limit as nat),
{
    let cs = chars_of(value);
    string_of(&ellipsize_vec(&cs, limit))
}

/// Whether a file at `path` is among the `loaded` ones (compared by path text).
pub open spec fn was_loaded(loaded: Seq<ConfigEntry>, path: Seq<char>) -> bool {
    exists|i: int| 0 <= i < loaded.len() && #[trigger] loaded[i].path@ == path
}

/// The line of the config report for one discovered file.
pub open spec fn discovered_line(loaded: Seq<ConfigEntry>, e: ConfigEntry) -> Seq<char> {
    "  "@ + (if was_loaded(loaded, e.path@) {
        "loaded "@
    } else {
        "missing"@
    }) + " "@ + e.path@
}

/// The lines of the config report for the discovered files, in order.
pub open spec fn discovered_lines(loaded: Seq<ConfigEntry>, discovered: Seq<ConfigEntry>) -> Seq<
    Seq<char>,
>
    decreases discovered.len(),
{
    if discovered.len() == 0 {
        seq![]
    } else {
        discovered_lines(loaded, discovered.drop_last()).push(
            discovered_line(loaded, discovered.last()),
        )
    }
}

/// The closing lines of the config report: one merged section when
/// `section` is given (only `model` is known), else the merged JSON.
/// `value_text` is the rendering of the value shown.
pub open spec fn config_report_tail(section: Option<Seq<char>>, value_text: Seq<char>) -> Seq<
    Seq<char>,
> {
    match section {
        Some(s) => if s == "model"@ {
            seq!["Merged section: "@ + s, "  "@ + value_text]
        } else {
            seq![
                "Merged section: "@ + s,
                "  Unsupported config section '"@ + s + "'. Use model."@,
            ]
        },
        None => seq!["Merged JSON"@, "  "@ + value_text],
    }
}

/// The lines of the config report.
pub open spec fn config_report_lines(
    discovered: Seq<ConfigEntry>,
    loaded: Seq<ConfigEntry>,
    merged_count: nat,
    section: Option<Seq<char>>,
    value_text: Seq<char>,
) -> Seq<Seq<char>> {
    seq![
        "Config\n  Loaded files      "@ + dec(loaded.len()) + "\n  Merged keys       "@ + dec(
            merged_count,
        ),
        "Discovered files"@,
    ] + discovered_lines(loaded, discovered) + config_report_tail(section, value_text)
}

/// The text the config report shows for its section: the rendered merged
/// `model` value (or `<unset>`) for the `model` section, the rendered merged
/// JSON without a section, nothing for a section it does not know.
pub open spec fn report_value_text(section: Option<Seq<char>>, rc: RuntimeConfig) -> Seq<char> {
    match section {
        Some(s) => if s == "model"@ {
            match merged_lookup(rc.merged_entries(), "model"@) {
                Some(v) => json_text_of(v),
                None => "<unset>"@,
            }
        } else {
            seq![]
        },
        None => json_text_of(JView::Object(rc.merged_entries())),
    }
}

/// The text of an optional string slice.
pub open spec fn opt_str_view(o: Option<&str>) -> Option<Seq<char>> {
    match o {
        Some(s) => Some(s@),
        None => None,
    }
}

/// The config report: how many files were loaded and keys merged, each
/// discovered file marked `loaded` or `missing`, then either one merged
/// section (`model`) or the whole merged JSON, rendered compactly; an unset
/// model reads `<unset>`.
pub fn render_config_report(
    section: Option<&str>,
    discovered: &Vec<ConfigEntry>,
    runtime_config: &RuntimeConfig,
) -> (r: String)
    ensures
        r@ == join(
            config_report_lines(
                discovered@,
                runtime_config.loaded(),
                runtime_config.merged_entries().len(),
                opt_str_view(section),
                report_value_text(opt_str_view(section), *runtime_config),
            ),
            "\n"@,
        ),
{
    let loaded = runtime_config.loaded_entries();
    let mut lines: Vec<Vec<char>> = Vec::new();
    let mut head = chars_of("Config\n  Loaded files      ");
    push_dec(&mut head, loaded.len() as u64);
    push_str(&mut head, "\n  Merged keys       ");
    push_dec(&mut head, runtime_config.merged().len() as u64);
    lines.push(head);
    lines.push(chars_of("Discovered files"));
    let mut i: usize = 0;
    while i < discovered.len()
        invariant
            0 <= i <= discovered.len(),
            loaded@ == runtime_config.loaded(),
            vviews(lines@) == seq![
                "Config\n  Loaded files      "@ + dec(loaded@.len()) + "\n  Merged keys       "@
                    + dec(runtime_config.merged_entries().len()),
                "Discovered files"@,
            ] + discovered_lines(loaded@, discovered@.take(i as int)),
        decreases discovered.len() - i,
    {
        let path = chars_of(discovered[i].path.as_str());
        let mut found = false;
        let mut j: usize = 0;
        while j < loaded.len()
            invariant
                0 <= j <= loaded.len(),
                path@ == discovered@[i as int].path@,
                found == exists|k: int| 0 <= k < j && #[trigger] loaded@[k].path@ == path@,
            decreases loaded.len() - j,
        {
            let other = chars_of(loaded[j].path.as_str());
            if eq_vec(&other, &path) {
                found = true;
            }
            j += 1;
        }
        let mut line = chars_of("  ");
        if found {
            push_str(&mut line, "loaded ");
        } else {
            push_str(&mut line, "missing");
        }
        push_str(&mut line, " ");
        push_all(&mut line, &path);
        proof {
            assert(discovered@.take(i + 1).drop_last() == discovered@.take(i as int));
            assert(line@ == discovered_line(loaded@, discovered@[i as int]));
        }
        let ghost prev = lines@;
        lines.push(line);
        proof {
            assert(lines@.drop_last() =~= prev);
            let t = discovered@.take(i + 1);
            assert(t.last() == discovered@[i as int]);
            assert(discovered_lines(loaded@, t) == discovered_lines(loaded@, t.drop_last()).push(
                discovered_line(loaded@, t.last()),
            ));
            assert(vviews(lines@) =~= vviews(lines@.drop_last()).push(lines@.last()@));
        }
        i += 1;
    }
    assert(discovered@.take(discovered.len() as int) == discovered@);
    let ghost before = vviews(lines@);
    let mut value_text: Vec<char> = Vec::new();
    match section {
        Some(s) => {
            let sv = chars_of(s);
            let mut l = chars_of("Merged section: ");
            push_all(&mut l, &sv);
            lines.push(l);
            if eq_str(&sv, "model") {
                value_text = match runtime_config.get("model") {
                    Some(v) => chars_of(json_value_text(v).as_str()),
                    None => chars_of("<unset>"),
                };
                let mut l2 = chars_of("  ");
                push_all(&mut l2, &value_text);
                lines.push(l2);
            } else {
                let mut l2 = chars_of("  Unsupported config section '");
                push_all(&mut l2, &sv);
                push_str(&mut l2, "'. Use model.");
                lines.push(l2);
            }
        },
        None => {
            lines.push(chars_of("Merged JSON"));
            value_text = chars_of(json_value_text(&runtime_config.as_json()).as_str());
            let mut l2 = chars_of("  ");
            push_all(&mut l2, &value_text);
            lines.push(l2);
        },
    }
    proof {
        let tail = config_report_tail(opt_str_view(section), value_text@);
        assert(vviews(lines@) =~= before + tail);
        assert(vviews(lines@) =~= config_report_lines(
            discovered@,
            runtime_config.loaded(),
            runtime_config.merged_entries().len(),
            opt_str_view(section),
            value_text@,
        ));
        reveal_strlit("model");
        reveal_strlit("<unset>");
        assert(value_text@ == report_value_text(opt_str_view(section), *runtime_config));
    }
    let out = join_vecs(&lines, "\n");
    string_of(&out)
}

} // verus!
