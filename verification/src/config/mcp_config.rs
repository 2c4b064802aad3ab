//! MCP server settings: where each server comes from and how it is reached.
use std::collections::BTreeMap;

use vstd::prelude::*;

use super::ConfigSource;
use crate::text::{chars_of, eq_vec};

verus! {

/// Configured MCP servers, by name, in ascending name order.
#[derive(Debug, Clone, PartialEq, Eq)]
pub struct McpConfigCollection {
    pub(crate) servers: Vec<(String, ScopedMcpServerConfig)>,
}

/// A server's settings with the configuration layer they came from.
#[derive(Debug, Clone, PartialEq, Eq)]
pub struct ScopedMcpServerConfig {
    pub scope: ConfigSource,
    pub config: McpServerConfig,
}

/// How an MCP server is reached.
#[derive(Debug, Clone, Copy, PartialEq, Eq, Structural)]
pub enum McpTransport {
    Stdio,
    Sse,
    Http,
    Ws,
    Sdk,
    ClaudeAiProxy,
}

/// The settings of one MCP server, by transport.
#[derive(Debug, Clone, PartialEq, Eq)]
pub enum McpServerConfig {
    Stdio(McpStdioServerConfig),
    Sse(McpRemoteServerConfig),
    Http(McpRemoteServerConfig),
    Ws(McpWebSocketServerConfig),
    Sdk(McpSdkServerConfig),
    ClaudeAiProxy(McpClaudeAiProxyServerConfig),
}

/// A server started as a child process.
#[derive(Debug, Clone, PartialEq, Eq)]
pub struct McpStdioServerConfig {
    pub command: String,
    pub args: Vec<String>,
    pub env: BTreeMap<String, String>,
}

/// A server reached over SSE or HTTP.
#[derive(Debug, Clone, PartialEq, Eq)]
pub struct McpRemoteServerConfig {
    pub url: String,
    pub headers: BTreeMap<String, String>,
    pub headers_helper: Option<String>,
    pub oauth: Option<McpOAuthConfig>,
}

/// A server reached over a WebSocket.
#[derive(Debug, Clone, PartialEq, Eq)]
pub struct McpWebSocketServerConfig {
    pub url: String,
    pub headers: BTreeMap<String, String>,
    pub headers_helper: Option<String>,
}

/// A server provided in-process by an SDK.
#[derive(Debug, Clone, PartialEq, Eq)]
pub struct McpSdkServerConfig {
    pub name: String,
}

/// A server reached through the hosted proxy.
#[derive(Debug, Clone, PartialEq, Eq)]
pub struct McpClaudeAiProxyServerConfig {
    pub url: String,
    pub id: String,
}

/// OAuth settings of a remote server.
#[derive(Debug, Clone, PartialEq, Eq)]
pub struct McpOAuthConfig {
    pub client_id: Option<String>,
    pub callback_port: Option<u16>,
    pub auth_server_metadata_url: Option<String>,
    pub xaa: Option<bool>,
}

/// The transport of a server configuration.
pub open spec fn transport_of(c: McpServerConfig) -> McpTransport {
    match c {
        McpServerConfig::Stdio(_) => McpTransport::Stdio,
        McpServerConfig::Sse(_) => McpTransport::Sse,
        McpServerConfig::Http(_) => McpTransport::Http,
        McpServerConfig::Ws(_) => McpTransport::Ws,
        McpServerConfig::Sdk(_) => McpTransport::Sdk,
        McpServerConfig::ClaudeAiProxy(_) => McpTransport::ClaudeAiProxy,
    }
}

impl Default for McpConfigCollection {
    fn default() -> (c: Self)
        ensures
            c.entries().len() == 0,
    {
        McpConfigCollection { servers: Vec::new() }
    }
}

impl McpConfigCollection {
    /// A collection holding `servers`.
    pub(crate) fn with_servers(servers: Vec<(String, ScopedMcpServerConfig)>) -> (c: Self)
        ensures
            c.entries() == servers@,
    {
        McpConfigCollection { servers }
    }

    /// The configured servers, as `(name, settings)` in ascending name order.
    pub closed spec fn entries(&self) -> Seq<(String, ScopedMcpServerConfig)> {
        self.servers@
    }

    /// The configured servers, as `(name, settings)` in ascending name order.
    pub fn servers(&self) -> (r: &Vec<(String, ScopedMcpServerConfig)>)
        ensures
            r@ == self.entries(),
    {
        &self.servers
    }

    /// The server called `name`, if configured.
    pub fn get(&self, name: &str) -> (r: Option<&ScopedMcpServerConfig>)
        ensures
            match r {
                Some(c) => exists|i: int|
                    0 <= i < self.entries().len() && self.entries()[i].0@ == name@ && *c
                        == self.entries()[i].1,
                None => forall|i: int|
                    0 <= i < self.entries().len() ==> self.entries()[i].0@ != name@,
            },
    {
        let key = chars_of(name);
        let mut i: usize = 0;
        while i < self.servers.len()
            invariant
                0 <= i <= self.servers.len(),
                key@ == name@,
                forall|k: int| 0 <= k < i ==> self.entries()[k].0@ != name@,
            decreases self.servers.len() - i,
        {
            let here = chars_of(self.servers[i].0.as_str());
            if eq_vec(&here, &key) {
                assert(self.entries()[i as int].0@ == name@);
                return Some(&self.servers[i].1);
            }
            i += 1;
        }
        None
    }
}

impl ScopedMcpServerConfig {
    /// The transport of the inner configuration.
    pub fn transport(&self) -> (r: McpTransport)
        ensures
            r == transport_of(self.config),
    {
        self.config.transport()
    }
}

impl McpServerConfig {
    /// The transport this configuration uses.
    pub fn transport(&self) -> (r: McpTransport)
        ensures
            r == transport_of(*self),
    {
        match self {
            McpServerConfig::Stdio(_) => McpTransport::Stdio,
            McpServerConfig::Sse(_) => McpTransport::Sse,
            McpServerConfig::Http(_) => McpTransport::Http,
            McpServerConfig::Ws(_) => McpTransport::Ws,
            McpServerConfig::Sdk(_) => McpTransport::Sdk,
            McpServerConfig::ClaudeAiProxy(_) => McpTransport::ClaudeAiProxy,
        }
    }
}

} // verus!
