use acrawl_runtime::config::{ConfigLoader, RuntimeConfig};
use acrawl_runtime::report::{
    render_config_report, format_auto_compaction_notice, format_compact_report, format_cost_report,
    format_model_report, format_model_switch_report, format_status_report, render_version_report,
    status_context, truncate_for_summary, StatusContext, StatusUsage, DEFAULT_DATE, VERSION,
};
use acrawl_runtime::TokenUsage;

#[test]
fn compact_report_uses_structured_output() {
    let compacted = format_compact_report(8, 5, false);
    assert!(compacted.contains("Compact"));
    assert!(compacted.contains("Result           compacted"));
    assert!(compacted.contains("Messages removed 8"));
    let skipped = format_compact_report(0, 3, true);
    assert!(skipped.contains("Result           skipped"));
}

#[test]
fn cost_report_uses_sectioned_layout() {
    let report = format_cost_report(TokenUsage {
        input_tokens: 20,
        output_tokens: 8,
        cache_creation_input_tokens: 3,
        cache_read_input_tokens: 1,
    });
    assert!(report.contains("Cost"));
    assert!(report.contains("Input tokens     20"));
    assert!(report.contains("Output tokens    8"));
    assert!(report.contains("Cache create     3"));
    assert!(report.contains("Cache read       1"));
    assert!(report.contains("Total tokens     32"));
}

#[test]
fn model_report_uses_sectioned_layout() {
    let report = format_model_report("model-sonnet", 12, 4);
    assert!(report.contains("Model"));
    assert!(report.contains("Current model    model-sonnet"));
    assert!(report.contains("Session messages 12"));
    assert!(report.contains("Switch models with /model <name>"));
}

#[test]
fn model_switch_report_preserves_context_summary() {
    let report = format_model_switch_report("model-sonnet", "model-opus", 9);
    assert!(report.contains("Model updated"));
    assert!(report.contains("Previous         model-sonnet"));
    assert!(report.contains("Current          model-opus"));
    assert!(report.contains("Preserved msgs   9"));
}

#[test]
fn status_line_reports_model_and_token_totals() {
    let status = format_status_report(
        "model-sonnet",
        StatusUsage {
            message_count: 7,
            turns: 3,
            latest: TokenUsage {
                input_tokens: 5,
                output_tokens: 4,
                cache_creation_input_tokens: 1,
                cache_read_input_tokens: 0,
            },
            cumulative: TokenUsage {
                input_tokens: 20,
                output_tokens: 8,
                cache_creation_input_tokens: 2,
                cache_read_input_tokens: 1,
            },
            estimated_tokens: 128,
        },
        &StatusContext {
            session_path: Some("session.json".to_string()),
        },
    );
    assert!(status.contains("Status"));
    assert!(status.contains("Model            model-sonnet"));
    assert!(status.contains("Messages         7"));
    assert!(status.contains("Latest total     10"));
    assert!(status.contains("Cumulative total 31"));
    assert!(status.contains("Session          session.json"));
}

#[test]
fn status_context_returns_session_path() {
    let context = status_context(None);
    assert!(context.session_path.is_none());
    let context = status_context(Some("test.json"));
    assert_eq!(context.session_path.as_deref(), Some("test.json"));
}

#[test]
fn version_report_contains_all_fields() {
    let report = render_version_report();
    assert!(report.contains("AgenticCrawler"));
    assert!(report.contains("Version"));
    assert!(report.contains(VERSION));
    assert!(report.contains("Git SHA"));
    assert!(report.contains("Target"));
    assert!(report.contains("Build date"));
    assert!(report.contains(DEFAULT_DATE));
}

#[test]
fn auto_compaction_notice_contains_count() {
    let notice = format_auto_compaction_notice(12);
    assert_eq!(notice, "[auto-compacted: removed 12 messages]");
}

#[test]
fn status_report_exact_text_for_live_session() {
    let usage = StatusUsage {
        message_count: 0,
        turns: 0,
        latest: TokenUsage::default(),
        cumulative: TokenUsage::default(),
        estimated_tokens: 0,
    };
    let status = format_status_report("m", usage, &StatusContext { session_path: None });
    assert_eq!(
        status,
        "Status\n  Model            m\n  Messages         0\n  Turns            0\n  Estimated tokens 0\n  Session          live-repl\n\nUsage\n  Latest total     0\n  Cumulative input 0\n  Cumulative output 0\n  Cumulative total 0"
    );
}

#[test]
fn compact_report_exact_texts() {
    assert_eq!(
        format_compact_report(2, 4, false),
        "Compact\n  Result           compacted\n  Messages removed 2\n  Messages kept    4"
    );
    assert_eq!(
        format_compact_report(2, 4, true),
        "Compact\n  Result           skipped\n  Reason           session below compaction threshold\n  Messages kept    4"
    );
}

#[test]
fn version_report_exact_text() {
    assert_eq!(
        render_version_report(),
        format!("AgenticCrawler\n  Version          {VERSION}\n  Git SHA          unknown\n  Target           unknown\n  Build date       {DEFAULT_DATE}")
    );
}

#[test]
fn truncate_for_summary_adds_ellipsis_only_when_cut() {
    assert_eq!(truncate_for_summary("abcdef", 3), "abc…");
    assert_eq!(truncate_for_summary("abc", 3), "abc");
    assert_eq!(truncate_for_summary("", 0), "");
}

#[test]
fn config_report_supports_section_views() {
    let discovered = ConfigLoader::new("project", "home/.acrawl").discover();
    let report = render_config_report(Some("model"), &discovered, &RuntimeConfig::empty());
    assert!(report.contains("Merged section: model"));
}

#[test]
fn config_report_uses_sectioned_layout() {
    let discovered = ConfigLoader::new("project", "home/.acrawl").discover();
    let report = render_config_report(None, &discovered, &RuntimeConfig::empty());
    assert!(report.contains("Config"));
    assert!(report.contains("Discovered files"));
    assert!(report.contains("Merged JSON"));
}

#[test]
fn config_report_lists_every_discovered_file_and_unset_model() {
    let discovered = ConfigLoader::new("project", "home/.acrawl").discover();
    let report = render_config_report(Some("model"), &discovered, &RuntimeConfig::empty());
    let lines: Vec<&str> = report.lines().collect();
    assert_eq!(lines[0], "Config");
    assert_eq!(lines[1], "  Loaded files      0");
    assert_eq!(lines[2], "  Merged keys       0");
    assert_eq!(lines[3], "Discovered files");
    for (i, entry) in discovered.iter().enumerate() {
        assert_eq!(lines[4 + i], format!("  missing {}", entry.path));
    }
    let n = 4 + discovered.len();
    assert_eq!(lines[n], "Merged section: model");
    assert_eq!(lines[n + 1], "  <unset>");
    assert_eq!(lines.len(), n + 2);
}

#[test]
fn config_report_rejects_unknown_section_and_renders_empty_json() {
    let report = render_config_report(Some("hooks"), &Vec::new(), &RuntimeConfig::empty());
    assert!(report.ends_with("Merged section: hooks\n  Unsupported config section 'hooks'. Use model."));
    let whole = render_config_report(None, &Vec::new(), &RuntimeConfig::empty());
    assert!(whole.ends_with("Merged JSON\n  {}"));
}

#[test]
fn version_report_shows_recorded_commit_and_target() {
    let report = acrawl_runtime::report::render_version_report_with(Some("abc123"), Some("x86_64"));
    assert!(report.contains("Git SHA          abc123"));
    assert!(report.contains("Target           x86_64"));
}
