use acrawl_runtime::conversation::{
    auto_compaction_threshold_from_env, parse_auto_compaction_threshold,
    DEFAULT_AUTO_COMPACTION_INPUT_TOKENS_THRESHOLD,
};
use acrawl_runtime::settings::{
    settings_get_auto_compact_tokens, settings_get_fork_child_max_steps,
    settings_get_fork_wait_timeout_secs, settings_get_headless, settings_get_max_concurrent_per_parent,
    settings_get_max_fork_depth, settings_get_max_steps, settings_get_max_total_agents,
    settings_get_workspace_dir, Settings,
};

#[test]
fn test_settings_get_max_steps_with_none() {
    let settings = Settings {
        max_steps: None,
        ..Default::default()
    };

    assert_eq!(settings_get_max_steps(&settings), 50);
}

#[test]
fn test_settings_get_max_steps_with_value() {
    let settings = Settings {
        max_steps: Some(100),
        ..Default::default()
    };

    assert_eq!(settings_get_max_steps(&settings), 100);
}

#[test]
fn test_settings_get_headless() {
    let settings_true = Settings {
        headless: Some(true),
        ..Default::default()
    };
    assert!(settings_get_headless(&settings_true));

    let settings_false = Settings {
        headless: Some(false),
        ..Default::default()
    };
    assert!(!settings_get_headless(&settings_false));

    let settings_none = Settings {
        headless: None,
        ..Default::default()
    };
    assert!(settings_get_headless(&settings_none));
}

#[test]
fn test_settings_get_workspace_dir() {
    let settings_custom = Settings {
        workspace_dir: Some("my_workspace".to_string()),
        ..Default::default()
    };
    assert_eq!(settings_get_workspace_dir(&settings_custom), "my_workspace");

    let settings_none = Settings {
        workspace_dir: None,
        ..Default::default()
    };
    assert_eq!(settings_get_workspace_dir(&settings_none), "workspace");
}

#[test]
fn test_settings_get_auto_compact_tokens() {
    let settings_custom = Settings {
        auto_compact_input_tokens: Some(500_000),
        ..Default::default()
    };
    assert_eq!(settings_get_auto_compact_tokens(&settings_custom), 500_000);

    let settings_none = Settings {
        auto_compact_input_tokens: None,
        ..Default::default()
    };
    assert_eq!(settings_get_auto_compact_tokens(&settings_none), 200_000);
}

#[test]
fn test_fork_settings_defaults() {
    let settings = Settings::default();
    assert_eq!(settings.max_concurrent_per_parent, Some(5));
    assert_eq!(settings.max_fork_depth, Some(3));
    assert_eq!(settings.max_total_agents, Some(10));
    assert_eq!(settings.fork_child_max_steps, Some(15));
    assert_eq!(settings.fork_wait_timeout_secs, Some(60));
}

#[test]
fn test_fork_settings_getters_with_none() {
    let settings = Settings {
        headless: None,
        max_steps: None,
        model: None,
        reasoning_effort: None,
        workspace_dir: None,
        classic_repl: None,
        auto_compact_input_tokens: None,
        max_concurrent_per_parent: None,
        max_fork_depth: None,
        max_total_agents: None,
        fork_child_max_steps: None,
        fork_wait_timeout_secs: None,
    };

    assert_eq!(settings_get_max_concurrent_per_parent(&settings), 5);
    assert_eq!(settings_get_max_fork_depth(&settings), 3);
    assert_eq!(settings_get_max_total_agents(&settings), 10);
    assert_eq!(settings_get_fork_child_max_steps(&settings), 15);
    assert_eq!(settings_get_fork_wait_timeout_secs(&settings), 60);
}

#[test]
fn default_settings_match_documented_defaults() {
    let s = Settings::default();
    assert_eq!(s.headless, Some(true));
    assert_eq!(s.max_steps, Some(50));
    assert_eq!(s.workspace_dir.as_deref(), Some("workspace"));
    assert_eq!(s.classic_repl, Some(false));
    assert_eq!(s.auto_compact_input_tokens, Some(200_000));
    assert_eq!(s.model, None);
    assert_eq!(s.reasoning_effort.as_deref(), Some("high"));
}

#[test]
fn auto_compaction_threshold_defaults_and_parses_values() {
    assert_eq!(
        parse_auto_compaction_threshold(None),
        DEFAULT_AUTO_COMPACTION_INPUT_TOKENS_THRESHOLD
    );
    assert_eq!(parse_auto_compaction_threshold(Some("4321")), 4321);
    assert_eq!(
        parse_auto_compaction_threshold(Some("not-a-number")),
        DEFAULT_AUTO_COMPACTION_INPUT_TOKENS_THRESHOLD
    );
}

#[test]
fn threshold_parsing_edge_cases() {
    assert_eq!(parse_auto_compaction_threshold(Some("  77 ")), 77);
    assert_eq!(parse_auto_compaction_threshold(Some("+9")), 9);
    assert_eq!(parse_auto_compaction_threshold(Some("0")), 200_000);
    assert_eq!(parse_auto_compaction_threshold(Some("4294967295")), u32::MAX);
    assert_eq!(parse_auto_compaction_threshold(Some("4294967296")), 200_000);
    assert_eq!(parse_auto_compaction_threshold(Some("-1")), 200_000);
    assert_eq!(parse_auto_compaction_threshold(Some("")), 200_000);
}

#[test]
fn threshold_from_settings_caps_at_u32_max() {
    let big = Settings {
        auto_compact_input_tokens: Some(u64::MAX),
        ..Default::default()
    };
    assert_eq!(auto_compaction_threshold_from_env(&big), u32::MAX);
    let small = Settings {
        auto_compact_input_tokens: Some(1234),
        ..Default::default()
    };
    assert_eq!(auto_compaction_threshold_from_env(&small), 1234);
    let unset = Settings {
        auto_compact_input_tokens: None,
        ..Default::default()
    };
    assert_eq!(auto_compaction_threshold_from_env(&unset), 200_000);
}
