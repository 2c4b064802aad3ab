//! MCP servers: which configured servers can be managed here.
use vstd::prelude::*;

pub mod server_manager;

pub use server_manager::{McpServerManager, UnsupportedMcpServer};

verus! {
}
