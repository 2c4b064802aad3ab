use acrawl_runtime::config_ops::{
    check_config_set, check_config_unset, lookup_key_kind, AllowedValues, ConfigError, ConfigValue,
    config_get, config_set, config_unset, effective_value, ConfigReading, StoredConfig,
    UnsetTarget, ValueKind,
};

#[test]
fn unknown_key_is_refused_by_set_and_unset() {
    let err = check_config_set("nope", "true").expect_err("unknown key should fail");
    assert!(matches!(err, ConfigError::UnknownKey(ref key) if key == "nope"));
    assert_eq!(err.message(), "unknown config key: nope");
    let err = check_config_unset("nope").expect_err("unknown key should fail");
    assert!(matches!(err, ConfigError::UnknownKey(ref key) if key == "nope"));
}

#[test]
fn unsigned_keys_reject_non_numbers_and_out_of_range() {
    let err = check_config_set("max_steps", "abc").expect_err("bad type should fail");
    assert!(matches!(
        err,
        ConfigError::BadValue { ref key, ref value, ref reason }
            if key == "max_steps" && value == "abc" && reason == "expected unsigned integer"
    ));
    assert_eq!(err.message(), "bad value for max_steps: abc (expected unsigned integer)");
    assert!(check_config_set("max_steps", "-1").is_err());
    assert!(check_config_set("max_steps", "").is_err());
    assert!(check_config_set("max_steps", "4294967296").is_err());
    assert!(check_config_set("extension_bridge_port", "65536").is_err());
    assert_eq!(
        check_config_set("max_steps", "77").unwrap(),
        ConfigValue::U32(77)
    );
    assert_eq!(
        check_config_set("max_steps", "+7").unwrap(),
        ConfigValue::U32(7)
    );
    assert_eq!(
        check_config_set("extension_bridge_port", "65535").unwrap(),
        ConfigValue::U16(65535)
    );
    assert_eq!(
        check_config_set("auto_compact_input_tokens", "18446744073709551615").unwrap(),
        ConfigValue::U64(u64::MAX)
    );
    assert_eq!(
        check_config_set("script.max_steps", "321").unwrap(),
        ConfigValue::Usize(321)
    );
}

#[test]
fn bool_keys_take_only_true_or_false() {
    assert_eq!(check_config_set("headless", "false").unwrap(), ConfigValue::Bool(false));
    assert_eq!(
        check_config_set("optimization.loop_detection", "true").unwrap(),
        ConfigValue::Bool(true)
    );
    let err = check_config_set("headless", "yes").expect_err("not a bool");
    assert!(matches!(
        err,
        ConfigError::BadValue { ref reason, .. } if reason == "expected bool (true or false)"
    ));
    assert!(check_config_set("headless", "TRUE").is_err());
}

#[test]
fn model_needs_a_provider_prefix() {
    let err = check_config_set("model", "gpt-5").expect_err("model without slash should fail");
    assert!(matches!(
        err,
        ConfigError::BadValue { ref key, ref value, ref reason }
            if key == "model" && value == "gpt-5"
                && reason == "expected provider/model format containing '/'"
    ));
    assert_eq!(
        check_config_set("model", "anthropic/sonnet-4-6").unwrap(),
        ConfigValue::Text("anthropic/sonnet-4-6".to_string())
    );
}

#[test]
fn closed_sets_list_their_values_when_refusing() {
    let err = check_config_set("reasoning_effort", "extreme").expect_err("not allowed");
    assert!(matches!(
        err,
        ConfigError::BadValue { ref reason, .. } if reason == "expected one of: high, medium, low"
    ));
    assert_eq!(
        check_config_set("reasoning_effort", "low").unwrap(),
        ConfigValue::Text("low".to_string())
    );
    assert_eq!(
        check_config_set("browser_backend", "null").unwrap(),
        ConfigValue::Choice(None)
    );
    assert_eq!(
        check_config_set("browser_backend", "extension").unwrap(),
        ConfigValue::Choice(Some("extension".to_string()))
    );
    let err = check_config_set("optimization.budget_enforcement", "stop").expect_err("not allowed");
    assert!(matches!(
        err,
        ConfigError::BadValue { ref reason, .. } if reason == "expected one of: warn, block"
    ));
}

#[test]
fn strings_and_paths_stay_literal() {
    assert_eq!(
        check_config_set("output_dir", "true").unwrap(),
        ConfigValue::Text("true".to_string())
    );
    assert_eq!(
        check_config_set("script.scripts_dir", "a/b").unwrap(),
        ConfigValue::Text("a/b".to_string())
    );
    assert_eq!(
        check_config_set("optimization.budget_max_session_cost_usd", "null").unwrap(),
        ConfigValue::FloatText(None)
    );
    assert_eq!(
        check_config_set("optimization.budget_max_session_cost_usd", "2.5").unwrap(),
        ConfigValue::FloatText(Some("2.5".to_string()))
    );
}

#[test]
fn unset_clears_blocks_and_known_keys() {
    assert_eq!(check_config_unset("optimization").unwrap(), UnsetTarget::OptimizationBlock);
    assert_eq!(check_config_unset("script").unwrap(), UnsetTarget::ScriptBlock);
    assert_eq!(
        check_config_unset("max_steps").unwrap(),
        UnsetTarget::Key(ValueKind::U32)
    );
    assert_eq!(
        lookup_key_kind("optimization.budget_enforcement"),
        Some(ValueKind::NullableEnum(AllowedValues::BudgetEnforcement))
    );
    assert_eq!(lookup_key_kind("script.scripts_dir"), Some(ValueKind::Path));
    assert_eq!(lookup_key_kind("workspace_dir"), None);
}

#[test]
fn stored_value_reads_back_what_was_set() {
    let mut config = StoredConfig::new();
    assert_eq!(config.stored_value("max_steps"), None);
    assert_eq!(
        config.apply_set("max_steps", "40").expect("valid value"),
        ConfigValue::U32(40)
    );
    assert_eq!(config.stored_value("max_steps"), Some(ConfigValue::U32(40)));
    config.apply_set("max_steps", "41").expect("valid value");
    assert_eq!(config.stored_value("max_steps"), Some(ConfigValue::U32(41)));
    config.apply_set("headless", "true").expect("valid value");
    assert_eq!(config.stored_value("max_steps"), Some(ConfigValue::U32(41)));
    assert_eq!(config.stored_value("headless"), Some(ConfigValue::Bool(true)));
}

#[test]
fn refused_set_changes_nothing() {
    let mut config = StoredConfig::new();
    config.apply_set("model", "acme/large").expect("valid model");
    let err = config.apply_set("model", "large").expect_err("model needs a provider");
    assert!(matches!(err, ConfigError::BadValue { .. }));
    assert_eq!(
        config.stored_value("model"),
        Some(ConfigValue::Text("acme/large".to_string()))
    );
    let err = config.apply_set("nope", "1").expect_err("unknown key");
    assert!(matches!(err, ConfigError::UnknownKey(_)));
}

#[test]
fn null_leaves_a_nullable_key_unset() {
    let mut config = StoredConfig::new();
    config.apply_set("browser_backend", "extension").expect("allowed value");
    assert_eq!(
        config.stored_value("browser_backend"),
        Some(ConfigValue::Choice(Some("extension".to_string())))
    );
    config.apply_set("browser_backend", "null").expect("null is accepted");
    assert_eq!(config.stored_value("browser_backend"), None);
}

#[test]
fn unset_clears_a_key_or_a_whole_block() {
    let mut config = StoredConfig::new();
    config.apply_set("optimization.loop_detection", "true").expect("valid");
    config.apply_set("optimization.planning_interval", "3").expect("valid");
    config.apply_set("script.max_steps", "9").expect("valid");
    config.apply_set("max_steps", "5").expect("valid");

    config_unset(&mut config, "max_steps").expect("known key");
    assert_eq!(config.stored_value("max_steps"), None);

    config_unset(&mut config, "optimization").expect("block");
    assert_eq!(config.stored_value("optimization.loop_detection"), None);
    assert_eq!(config.stored_value("optimization.planning_interval"), None);
    assert_eq!(config.stored_value("script.max_steps"), Some(ConfigValue::Usize(9)));

    config_unset(&mut config, "script").expect("block");
    assert_eq!(config.stored_value("script.max_steps"), None);

    assert!(matches!(config_unset(&mut config, "nope"), Err(ConfigError::UnknownKey(_))));
}

#[test]
fn apply_unset_clears_only_a_known_key() {
    let mut config = StoredConfig::new();
    config.apply_set("optimization.loop_detection", "true").expect("valid");
    config.apply_set("headless", "false").expect("valid");
    config.apply_unset("optimization");
    config.apply_unset("nope");
    assert_eq!(config.stored_value("optimization.loop_detection"), Some(ConfigValue::Bool(true)));
    config.apply_unset("headless");
    assert_eq!(config.stored_value("headless"), None);
    assert_eq!(config.stored_value("optimization.loop_detection"), Some(ConfigValue::Bool(true)));
}

#[test]
fn float_keys_take_only_float_text() {
    let key = "optimization.budget_max_session_cost_usd";
    for ok in ["1.5", "-2", "+.5", "5.", "1e5", "2.5E-3", "inf", "-Infinity", "NaN"] {
        assert_eq!(
            check_config_set(key, ok).expect("float text"),
            ConfigValue::FloatText(Some(ok.to_string())),
            "{ok}"
        );
    }
    assert_eq!(check_config_set(key, "null").expect("null"), ConfigValue::FloatText(None));
    for bad in ["abc", "", ".", "1e", "1.2.3", "--1", "e5", "1 "] {
        let err = check_config_set(key, bad).expect_err("not a float");
        assert!(
            matches!(err, ConfigError::BadValue { ref reason, .. } if reason == "expected float"),
            "{bad}"
        );
    }
}

#[test]
fn effective_values_fall_back_to_defaults() {
    let mut config = StoredConfig::new();
    assert_eq!(effective_value(&config, "headless"), Some(ConfigValue::Bool(true)));
    assert_eq!(effective_value(&config, "max_steps"), Some(ConfigValue::U32(50)));
    assert_eq!(
        effective_value(&config, "reasoning_effort"),
        Some(ConfigValue::Text("high".to_string()))
    );
    assert_eq!(effective_value(&config, "auto_compact_input_tokens"), Some(ConfigValue::U64(200_000)));
    assert_eq!(effective_value(&config, "max_concurrent_per_parent"), Some(ConfigValue::U32(5)));
    assert_eq!(effective_value(&config, "max_fork_depth"), Some(ConfigValue::U32(3)));
    assert_eq!(effective_value(&config, "max_total_agents"), Some(ConfigValue::U32(10)));
    assert_eq!(effective_value(&config, "fork_child_max_steps"), Some(ConfigValue::U32(15)));
    assert_eq!(effective_value(&config, "fork_wait_timeout_secs"), Some(ConfigValue::U32(60)));
    assert_eq!(effective_value(&config, "extension_bridge_port"), Some(ConfigValue::U16(19_876)));
    assert_eq!(effective_value(&config, "model"), None);
    assert_eq!(effective_value(&config, "nope"), None);
    config_set(&mut config, "max_steps", "7").expect("valid");
    assert_eq!(effective_value(&config, "max_steps"), Some(ConfigValue::U32(7)));
    assert_eq!(
        config_get(&config, "max_steps", false).expect("known"),
        ConfigReading::Value(Some(ConfigValue::U32(7)))
    );
    assert_eq!(
        config_get(&config, "headless", false).expect("known"),
        ConfigReading::Value(None)
    );
    assert_eq!(
        config_get(&config, "headless", true).expect("known"),
        ConfigReading::Value(Some(ConfigValue::Bool(true)))
    );
    assert_eq!(config_get(&config, "", true).expect("whole"), ConfigReading::Whole);
    assert!(matches!(config_get(&config, "nope", false), Err(ConfigError::UnknownKey(_))));
    assert!(matches!(config_set(&mut config, "max_steps", "x"), Err(ConfigError::BadValue { .. })));
    assert_eq!(effective_value(&config, "max_steps"), Some(ConfigValue::U32(7)));
}
