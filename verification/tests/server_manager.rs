use acrawl_runtime::mcp::server_manager::{
    ready_step, ReadyAction, ReadyEvent, ReadyFailure, ReadyStage, RequestOutcome,
    ServerReadyState,
};
use std::collections::BTreeMap;

use acrawl_runtime::config::{
    ConfigSource, McpRemoteServerConfig, McpSdkServerConfig, McpServerConfig,
    McpStdioServerConfig, McpTransport, McpWebSocketServerConfig, ScopedMcpServerConfig,
};
use acrawl_runtime::mcp::McpServerManager;

#[test]
fn manager_records_unsupported_non_stdio_servers_without_panicking() {
    let servers = vec![
        (
            "http".to_string(),
            ScopedMcpServerConfig {
                scope: ConfigSource::Local,
                config: McpServerConfig::Http(McpRemoteServerConfig {
                    url: "https://example.test/mcp".to_string(),
                    headers: BTreeMap::new(),
                    headers_helper: None,
                    oauth: None,
                }),
            },
        ),
        (
            "sdk".to_string(),
            ScopedMcpServerConfig {
                scope: ConfigSource::Local,
                config: McpServerConfig::Sdk(McpSdkServerConfig {
                    name: "sdk-server".to_string(),
                }),
            },
        ),
        (
            "ws".to_string(),
            ScopedMcpServerConfig {
                scope: ConfigSource::Local,
                config: McpServerConfig::Ws(McpWebSocketServerConfig {
                    url: "wss://example.test/mcp".to_string(),
                    headers: BTreeMap::new(),
                    headers_helper: None,
                }),
            },
        ),
    ];

    let manager = McpServerManager::from_servers(&servers);
    let unsupported = manager.unsupported_servers();

    assert_eq!(unsupported.len(), 3);
    assert_eq!(unsupported[0].server_name, "http");
    assert_eq!(unsupported[1].server_name, "sdk");
    assert_eq!(unsupported[2].server_name, "ws");
}

#[test]
fn stdio_servers_are_managed_and_reasons_name_the_transport() {
    let servers = vec![
        (
            "local".to_string(),
            ScopedMcpServerConfig {
                scope: ConfigSource::User,
                config: McpServerConfig::Stdio(McpStdioServerConfig {
                    command: "uvx".to_string(),
                    args: Vec::new(),
                    env: BTreeMap::new(),
                }),
            },
        ),
        (
            "remote".to_string(),
            ScopedMcpServerConfig {
                scope: ConfigSource::User,
                config: McpServerConfig::Sse(McpRemoteServerConfig {
                    url: "https://x".to_string(),
                    headers: BTreeMap::new(),
                    headers_helper: None,
                    oauth: None,
                }),
            },
        ),
    ];
    let manager = McpServerManager::from_servers(&servers);
    let unsupported = manager.unsupported_servers();
    assert_eq!(unsupported.len(), 1);
    assert_eq!(unsupported[0].transport, McpTransport::Sse);
    assert_eq!(
        unsupported[0].reason,
        "transport Sse is not supported by McpServerManager"
    );
}

#[test]
fn ready_step_spawns_initializes_and_notifies() {
    let fresh = ServerReadyState { known: true, has_process: false, initialized: false };
    let (s, a) = ready_step(fresh, ReadyEvent::Begin);
    assert_eq!(a, ReadyAction::Spawn);
    let (s, a) = ready_step(s, ReadyEvent::Spawned(true));
    assert_eq!(a, ReadyAction::Initialize);
    assert!(s.has_process && !s.initialized);
    let reply = RequestOutcome::Answered { json_rpc_error: false, has_result: true };
    let (s, a) = ready_step(s, ReadyEvent::Initialized(reply));
    assert_eq!(a, ReadyAction::NotifyInitialized);
    let (s, a) = ready_step(s, ReadyEvent::Notified(reply));
    assert_eq!(a, ReadyAction::Ready);
    assert!(s.initialized);
    let (_, a) = ready_step(s, ReadyEvent::Begin);
    assert_eq!(a, ReadyAction::Ready);

    let unknown = ServerReadyState { known: false, has_process: false, initialized: false };
    assert_eq!(
        ready_step(unknown, ReadyEvent::Begin).1,
        ReadyAction::Fail(ReadyFailure::UnknownServer)
    );
    assert_eq!(
        ready_step(fresh, ReadyEvent::Spawned(false)).1,
        ReadyAction::Fail(ReadyFailure::SpawnFailed)
    );
    let running = ServerReadyState { known: true, has_process: true, initialized: false };
    assert_eq!(ready_step(running, ReadyEvent::Begin).1, ReadyAction::Initialize);
    let error = RequestOutcome::Answered { json_rpc_error: true, has_result: true };
    assert_eq!(
        ready_step(running, ReadyEvent::Initialized(error)).1,
        ReadyAction::Fail(ReadyFailure::JsonRpc)
    );
    let empty = RequestOutcome::Answered { json_rpc_error: false, has_result: false };
    assert_eq!(
        ready_step(running, ReadyEvent::Initialized(empty)).1,
        ReadyAction::Fail(ReadyFailure::MissingResult)
    );
    let (s, a) = ready_step(running, ReadyEvent::Initialized(RequestOutcome::TimedOut));
    assert_eq!(a, ReadyAction::Fail(ReadyFailure::Timeout(ReadyStage::Initialize)));
    assert!(!s.has_process && !s.initialized);
}
