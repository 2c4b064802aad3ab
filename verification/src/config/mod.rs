//! Runtime configuration: the files it is read from, MCP servers and features.
use vstd::prelude::*;

pub mod features;
pub mod loader;
pub mod mcp_config;
pub mod laws;
pub mod load;
pub mod merge;
pub mod parse;

pub use features::{OAuthConfig, RuntimeFeatureConfig};
pub use load::load_config_files;
pub use loader::{ConfigLoader, RuntimeConfig};
pub use mcp_config::{
    McpClaudeAiProxyServerConfig, McpConfigCollection, McpOAuthConfig, McpRemoteServerConfig,
    McpSdkServerConfig, McpServerConfig, McpStdioServerConfig, McpTransport,
    McpWebSocketServerConfig, ScopedMcpServerConfig,
};

verus! {

/// The configuration layer a file belongs to, from lowest to highest precedence.
#[derive(Debug, Clone, Copy, PartialEq, Eq, PartialOrd, Ord, Structural)]
pub enum ConfigSource {
    User,
    Project,
    Local,
}

/// Why configuration could not be loaded.
#[derive(Debug)]
pub enum ConfigError {
    Io(std::io::Error),
    Parse(String),
}

impl ConfigError {
    /// The error as a message: a parse error reads as its own text; an I/O
    /// error reads as that error's message, which is not stated.
    pub fn message(&self) -> (r: String)
        ensures
            self matches ConfigError::Parse(m) ==> r@ == m@,
    {
        match self {
            ConfigError::Io(e) => crate::config_ops::io_error_text(e),
            ConfigError::Parse(m) => m.clone(),
        }
    }
}

/// `r` is a parse error with message `m`.
pub open spec fn is_parse_error<T>(r: Result<T, ConfigError>, m: Seq<char>) -> bool {
    r matches Err(ConfigError::Parse(x)) && x@ == m
}

/// A configuration file and the layer it belongs to.
#[derive(Debug, Clone, PartialEq, Eq)]
pub struct ConfigEntry {
    pub source: ConfigSource,
    pub path: String,
}

} // verus!
