use std::collections::BTreeMap;

use acrawl_runtime::session::JsonValue;

use acrawl_runtime::config::{
    ConfigLoader, ConfigSource, McpClaudeAiProxyServerConfig, McpRemoteServerConfig,
    McpSdkServerConfig, McpServerConfig, McpStdioServerConfig, McpTransport,
    McpWebSocketServerConfig, OAuthConfig, RuntimeConfig, RuntimeFeatureConfig,
    ScopedMcpServerConfig,
};

#[test]
fn runtime_feature_config_defaults() {
    let feature_config = RuntimeFeatureConfig::default();

    assert!(feature_config.mcp().servers().is_empty());
    assert!(feature_config.oauth().is_none());
    assert!(feature_config.model().is_none());
}

#[test]
fn runtime_config_empty_has_expected_default_values() {
    let config = RuntimeConfig::empty();

    assert!(config.merged().is_empty());
    assert!(config.loaded_entries().is_empty());
    assert_eq!(config.as_json(), JsonValue::Object(Vec::new()));
    assert_eq!(config.feature_config(), &RuntimeFeatureConfig::default());
    assert!(config.oauth().is_none());
    assert!(config.model().is_none());
}

#[test]
fn config_source_variants_construct_and_compare_in_expected_order() {
    let variants = [
        ConfigSource::User,
        ConfigSource::Project,
        ConfigSource::Local,
    ];

    assert_eq!(variants[0], ConfigSource::User);
    assert_eq!(variants[1], ConfigSource::Project);
    assert_eq!(variants[2], ConfigSource::Local);
    assert!(variants[0] < variants[1]);
    assert!(variants[1] < variants[2]);
}

#[test]
fn oauth_config_stores_all_fields_correctly() {
    let oauth = OAuthConfig {
        client_id: "client-123".to_string(),
        authorize_url: "https://auth.example/authorize".to_string(),
        token_url: "https://auth.example/token".to_string(),
        callback_port: Some(8080),
        manual_redirect_url: Some("https://auth.example/callback".to_string()),
        scopes: vec!["read".to_string(), "write".to_string()],
    };
    assert_eq!(oauth.client_id, "client-123");
    assert_eq!(oauth.authorize_url, "https://auth.example/authorize");
    assert_eq!(oauth.token_url, "https://auth.example/token");
    assert_eq!(oauth.callback_port, Some(8080));
    assert_eq!(
        oauth.manual_redirect_url.as_deref(),
        Some("https://auth.example/callback")
    );
    assert_eq!(oauth.scopes, vec!["read", "write"]);
}

#[test]
fn config_loader_new_preserves_cwd_and_config_home() {
    let cwd = std::path::PathBuf::from("project");
    let config_home = std::path::PathBuf::from("home/.acrawl");

    let loader = ConfigLoader::new("project", "home/.acrawl");

    let discovered = loader.discover();
    assert_eq!(
        discovered[1].path,
        config_home.join("settings.json").to_string_lossy()
    );
    assert_eq!(discovered[2].path, cwd.join(".acrawl.json").to_string_lossy());
}

#[test]
fn discover_returns_five_entries_with_expected_sources() {
    let loader = ConfigLoader::new("project", "home/.acrawl");
    let entries = loader.discover();
    assert_eq!(entries.len(), 5);
    assert_eq!(entries[0].source, ConfigSource::User);
    assert_eq!(entries[1].source, ConfigSource::User);
    assert_eq!(entries[2].source, ConfigSource::Project);
    assert_eq!(entries[3].source, ConfigSource::Project);
    assert_eq!(entries[4].source, ConfigSource::Local);
}

#[test]
fn discover_puts_legacy_user_file_beside_config_home() {
    let entries = ConfigLoader::new("project", "home/.acrawl").discover();
    let expected = std::path::Path::new("home").join(".acrawl.json");
    assert_eq!(entries[0].path, expected.to_string_lossy());
    let local = std::path::Path::new("project")
        .join(".acrawl")
        .join("settings.local.json");
    assert_eq!(entries[4].path, local.to_string_lossy());
}

#[test]
fn runtime_config_get_returns_none_for_absent_keys() {
    let config = RuntimeConfig::empty();
    assert!(config.get("nonexistent").is_none());
    assert!(config.get("model").is_none());
    assert!(config.get("env").is_none());
}

#[test]
fn mcp_server_config_transport_matches_stdio_sse_and_http_variants() {
    let stdio = McpServerConfig::Stdio(McpStdioServerConfig {
        command: "uvx".to_string(),
        args: vec!["server".to_string()],
        env: BTreeMap::default(),
    });
    let sse = McpServerConfig::Sse(McpRemoteServerConfig {
        url: "https://example.test/sse".to_string(),
        headers: BTreeMap::default(),
        headers_helper: None,
        oauth: None,
    });
    let http = McpServerConfig::Http(McpRemoteServerConfig {
        url: "https://example.test/http".to_string(),
        headers: BTreeMap::default(),
        headers_helper: Some("helper".to_string()),
        oauth: None,
    });

    assert_eq!(stdio.transport(), McpTransport::Stdio);
    assert_eq!(sse.transport(), McpTransport::Sse);
    assert_eq!(http.transport(), McpTransport::Http);
}

#[test]
fn ws_sdk_and_claude_ai_proxy_transport_detection() {
    let ws = McpServerConfig::Ws(McpWebSocketServerConfig {
        url: "wss://example.test/mcp".to_string(),
        headers: BTreeMap::default(),
        headers_helper: None,
    });
    let sdk = McpServerConfig::Sdk(McpSdkServerConfig {
        name: "test-sdk".to_string(),
    });
    let proxy = McpServerConfig::ClaudeAiProxy(McpClaudeAiProxyServerConfig {
        url: "https://proxy.test/mcp".to_string(),
        id: "proxy-1".to_string(),
    });

    assert_eq!(ws.transport(), McpTransport::Ws);
    assert_eq!(sdk.transport(), McpTransport::Sdk);
    assert_eq!(proxy.transport(), McpTransport::ClaudeAiProxy);
}

#[test]
fn scoped_config_delegates_transport_to_inner_config() {
    let scoped = ScopedMcpServerConfig {
        scope: ConfigSource::Project,
        config: McpServerConfig::Stdio(McpStdioServerConfig {
            command: "test".to_string(),
            args: Vec::new(),
            env: BTreeMap::default(),
        }),
    };
    assert_eq!(scoped.transport(), McpTransport::Stdio);
    assert_eq!(scoped.transport(), scoped.config.transport());
}

fn json(text: &str) -> acrawl_runtime::session::JsonValue {
    fn convert(value: &serde_json::Value) -> JsonValue {
        match value {
            serde_json::Value::Null => JsonValue::Null,
            serde_json::Value::Bool(b) => JsonValue::Bool(*b),
            serde_json::Value::Number(n) => JsonValue::Number(n.as_i64().expect("integer")),
            serde_json::Value::String(s) => JsonValue::String(s.clone()),
            serde_json::Value::Array(items) => JsonValue::Array(items.iter().map(convert).collect()),
            serde_json::Value::Object(members) => JsonValue::Object(
                members.iter().map(|(k, v)| (k.clone(), convert(v))).collect(),
            ),
        }
    }
    convert(&serde_json::from_str(text).expect("valid JSON"))
}

fn with_files(
    texts: [Option<&str>; 5],
) -> Vec<(acrawl_runtime::config::ConfigEntry, Option<acrawl_runtime::session::JsonValue>)> {
    let loader = ConfigLoader::new("project", "home/.acrawl");
    loader
        .discover()
        .into_iter()
        .zip(texts)
        .map(|(entry, text)| (entry, text.map(json)))
        .collect()
}

fn member<'a>(
    value: &'a acrawl_runtime::session::JsonValue,
    key: &str,
) -> Option<&'a acrawl_runtime::session::JsonValue> {
    match value {
        acrawl_runtime::session::JsonValue::Object(members) => {
            members.iter().find(|(k, _)| k == key).map(|(_, v)| v)
        }
        _ => None,
    }
}

#[test]
fn rejects_non_object_settings_files() {
    let files = with_files([None, Some("[]"), None, None, None]);
    let error = acrawl_runtime::config::load_config_files(&files).expect_err("config should fail");
    assert!(error
        .message()
        .contains("top-level settings value must be a JSON object"));
    assert_eq!(
        error.message(),
        "home/.acrawl/settings.json: top-level settings value must be a JSON object"
    );
}

#[test]
fn loads_and_merges_config_files_by_precedence() {
    let files = with_files([
        Some(r#"{"model":"haiku","env":{"A":"1"},"mcpServers":{"home":{"command":"uvx","args":["home"]}}}"#),
        Some(r#"{"model":"sonnet","env":{"A2":"1"},"hooks":{"PreToolUse":["base"]},"permissions":{"defaultMode":"plan"}}"#),
        Some(r#"{"model":"project-compat","env":{"B":"2"}}"#),
        Some(r#"{"env":{"C":"3"},"hooks":{"PostToolUse":["project"]},"mcpServers":{"project":{"command":"uvx","args":["project"]}}}"#),
        Some(r#"{"model":"opus","permissionMode":"acceptEdits"}"#),
    ]);
    let loaded = acrawl_runtime::config::load_config_files(&files).expect("config should load");

    assert_eq!(loaded.loaded_entries().len(), 5);
    assert_eq!(loaded.loaded_entries()[0].source, ConfigSource::User);
    assert_eq!(
        loaded.get("model"),
        Some(&acrawl_runtime::session::JsonValue::String("opus".to_string()))
    );
    assert_eq!(loaded.model(), Some("opus"));
    match loaded.get("env") {
        Some(acrawl_runtime::session::JsonValue::Object(env)) => assert_eq!(env.len(), 4),
        other => panic!("expected env object, got {other:?}"),
    }
    let hooks = loaded.get("hooks").expect("hooks object");
    assert!(member(hooks, "PreToolUse").is_some());
    assert!(member(hooks, "PostToolUse").is_some());
    assert!(loaded.mcp().get("home").is_some());
    assert!(loaded.mcp().get("project").is_some());
    assert_eq!(loaded.mcp().get("home").expect("home").scope, ConfigSource::User);
    assert_eq!(loaded.mcp().get("project").expect("project").scope, ConfigSource::Project);
}

#[test]
fn parses_typed_mcp_and_oauth_config() {
    let files = with_files([
        None,
        Some(
            r#"{
              "mcpServers": {
                "stdio-server": {
                  "command": "uvx",
                  "args": ["mcp-server"],
                  "env": {"TOKEN": "secret"}
                },
                "remote-server": {
                  "type": "http",
                  "url": "https://example.test/mcp",
                  "headers": {"Authorization": "Bearer token"},
                  "headersHelper": "helper.sh",
                  "oauth": {
                    "clientId": "mcp-client",
                    "callbackPort": 7777,
                    "authServerMetadataUrl": "https://issuer.test/.well-known/oauth-authorization-server",
                    "xaa": true
                  }
                }
              },
              "oauth": {
                "clientId": "runtime-client",
                "authorizeUrl": "https://console.test/oauth/authorize",
                "tokenUrl": "https://console.test/oauth/token",
                "callbackPort": 54545,
                "manualRedirectUrl": "https://console.test/oauth/callback",
                "scopes": ["org:read", "user:write"]
              }
            }"#,
        ),
        None,
        None,
        Some(
            r#"{
              "mcpServers": {
                "remote-server": {
                  "type": "ws",
                  "url": "wss://override.test/mcp",
                  "headers": {"X-Env": "local"}
                }
              }
            }"#,
        ),
    ]);
    let loaded = acrawl_runtime::config::load_config_files(&files).expect("config should load");

    let stdio_server = loaded.mcp().get("stdio-server").expect("stdio server should exist");
    assert_eq!(stdio_server.scope, ConfigSource::User);
    assert_eq!(stdio_server.transport(), McpTransport::Stdio);
    match &stdio_server.config {
        McpServerConfig::Stdio(config) => {
            assert_eq!(config.command, "uvx");
            assert_eq!(config.args, vec!["mcp-server".to_string()]);
        }
        other => panic!("expected stdio config, got {other:?}"),
    }

    let remote_server = loaded.mcp().get("remote-server").expect("remote server should exist");
    assert_eq!(remote_server.scope, ConfigSource::Local);
    assert_eq!(remote_server.transport(), McpTransport::Ws);
    match &remote_server.config {
        McpServerConfig::Ws(config) => {
            assert_eq!(config.url, "wss://override.test/mcp");
            assert_eq!(config.headers.get("X-Env").map(String::as_str), Some("local"));
        }
        other => panic!("expected ws config, got {other:?}"),
    }

    let oauth = loaded.oauth().expect("oauth config should exist");
    assert_eq!(oauth.client_id, "runtime-client");
    assert_eq!(oauth.callback_port, Some(54_545));
    assert_eq!(oauth.scopes, vec!["org:read", "user:write"]);
}

#[test]
fn rejects_invalid_mcp_server_shapes() {
    let files = with_files([
        None,
        Some(r#"{"mcpServers":{"broken":{"type":"http","url":123}}}"#),
        None,
        None,
        None,
    ]);
    let error = acrawl_runtime::config::load_config_files(&files).expect_err("config should fail");
    assert!(error
        .message()
        .contains("mcpServers.broken: missing string field url"));
}

#[test]
fn load_returns_empty_runtime_config_when_no_files_exist() {
    let files = with_files([None, None, None, None, None]);
    let loaded = acrawl_runtime::config::load_config_files(&files)
        .expect("missing config files should succeed");
    assert_eq!(loaded, RuntimeConfig::empty());
}

#[test]
fn load_parses_present_config_file() {
    let files = with_files([
        None,
        Some(r#"{"model":"anthropic/sonnet-large","hooks":{"PreToolUse":["echo pre"]}}"#),
        None,
        None,
        None,
    ]);
    let loaded = acrawl_runtime::config::load_config_files(&files).expect("config should load");
    assert_eq!(loaded.loaded_entries().len(), 1);
    assert_eq!(loaded.loaded_entries()[0].source, ConfigSource::User);
    assert_eq!(loaded.model(), Some("anthropic/sonnet-large"));
    let hooks = loaded.get("hooks").expect("hooks object");
    assert_eq!(
        member(hooks, "PreToolUse"),
        Some(&acrawl_runtime::session::JsonValue::Array(vec![
            acrawl_runtime::session::JsonValue::String("echo pre".to_string())
        ]))
    );
}

#[test]
fn as_json_produces_object_matching_merged_content() {
    let files = with_files([
        None,
        Some(r#"{"model":"test-model","headless":true}"#),
        None,
        None,
        None,
    ]);
    let loaded = acrawl_runtime::config::load_config_files(&files).expect("config should load");
    let value = loaded.as_json();
    assert_eq!(
        member(&value, "model"),
        Some(&acrawl_runtime::session::JsonValue::String("test-model".to_string()))
    );
    assert_eq!(
        member(&value, "headless"),
        Some(&acrawl_runtime::session::JsonValue::Bool(true))
    );
}

#[test]
fn later_files_merge_nested_objects_and_replace_scalars() {
    let files = with_files([
        Some(r#"{"a":{"x":1,"y":{"p":1}},"b":1}"#),
        None,
        Some(r#"{"a":{"y":{"q":2},"z":3},"b":[1]}"#),
        None,
        None,
    ]);
    let loaded = acrawl_runtime::config::load_config_files(&files).expect("config should load");
    assert_eq!(loaded.as_json(), json(r#"{"a":{"x":1,"y":{"p":1,"q":2},"z":3},"b":[1]}"#));
    assert_eq!(loaded.loaded_entries().len(), 2);
    assert_eq!(loaded.loaded_entries()[1].source, ConfigSource::Project);
}

#[test]
fn malformed_merged_oauth_is_an_error() {
    let files = with_files([
        Some(r#"{"oauth":{"clientId":"c"}}"#),
        None,
        None,
        None,
        Some(r#"{"oauth":{"authorizeUrl":"a","tokenUrl":"t"}}"#),
    ]);
    assert!(acrawl_runtime::config::load_config_files(&files).is_ok());
    let files = with_files([Some(r#"{"oauth":{"clientId":"c"}}"#), None, None, None, None]);
    let error = acrawl_runtime::config::load_config_files(&files).expect_err("oauth should fail");
    assert!(error.message().contains("merged settings.oauth"));
}

#[test]
fn unsupported_server_type_is_an_error() {
    let files = with_files([
        None,
        None,
        Some(r#"{"mcpServers":{"odd":{"type":"carrier-pigeon"}}}"#),
        None,
        None,
    ]);
    let error = acrawl_runtime::config::load_config_files(&files).expect_err("config should fail");
    assert!(error.message().contains("mcpServers.odd"));
}

#[test]
fn loaders_are_equal_exactly_when_directories_are() {
    assert_eq!(ConfigLoader::new("project", "home/.acrawl"), ConfigLoader::new("project", "home/.acrawl"));
    assert_ne!(ConfigLoader::new("project", "home/.acrawl"), ConfigLoader::new("other", "home/.acrawl"));
    assert_ne!(ConfigLoader::new("project", "home/.acrawl"), ConfigLoader::new("project", "home/.other"));
}
