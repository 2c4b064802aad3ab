//! Feature settings merged from all configuration layers.
use vstd::prelude::*;

use super::McpConfigCollection;
use crate::message::opt_view;

verus! {

/// MCP servers, OAuth and model settings merged from all layers.
#[derive(Debug, Clone, PartialEq, Eq)]
pub struct RuntimeFeatureConfig {
    pub(crate) mcp: McpConfigCollection,
    pub(crate) oauth: Option<OAuthConfig>,
    pub(crate) model: Option<String>,
}

/// OAuth client settings.
#[derive(Debug, Clone, PartialEq, Eq)]
pub struct OAuthConfig {
    pub client_id: String,
    pub authorize_url: String,
    pub token_url: String,
    pub callback_port: Option<u16>,
    pub manual_redirect_url: Option<String>,
    pub scopes: Vec<String>,
}

impl Default for RuntimeFeatureConfig {
    fn default() -> (c: Self)
        ensures
            c.mcp_config().entries().len() == 0,
            c.oauth_config().is_none(),
            c.model_name().is_none(),
    {
        RuntimeFeatureConfig { mcp: McpConfigCollection::default(), oauth: None, model: None }
    }
}

impl RuntimeFeatureConfig {
    /// Feature settings from their parts.
    pub(crate) fn from_parts(mcp: McpConfigCollection, oauth: Option<OAuthConfig>, model: Option<String>) -> (c: Self)
        ensures
            c.mcp_config() == mcp,
            c.oauth_config() == oauth,
            c.model_name() == opt_view(model),
    {
        RuntimeFeatureConfig { mcp, oauth, model }
    }

    /// The merged MCP server collection.
    pub closed spec fn mcp_config(&self) -> McpConfigCollection {
        self.mcp
    }

    /// The merged OAuth settings.
    pub closed spec fn oauth_config(&self) -> Option<OAuthConfig> {
        self.oauth
    }

    /// The merged model name.
    pub closed spec fn model_name(&self) -> Option<Seq<char>> {
        match self.model {
            Some(m) => Some(m@),
            None => None,
        }
    }

    /// The configured MCP servers.
    pub fn mcp(&self) -> (r: &McpConfigCollection)
        ensures
            *r == self.mcp_config(),
    {
        &self.mcp
    }

    /// The OAuth settings, if any.
    pub fn oauth(&self) -> (r: Option<&OAuthConfig>)
        ensures
            match self.oauth_config() {
                Some(o) => r.is_some() && *r.unwrap() == o,
                None => r.is_none(),
            },
    {
        match &self.oauth {
            Some(o) => Some(o),
            None => None,
        }
    }

    /// The configured model, if any.
    pub fn model(&self) -> (r: Option<&str>)
        ensures
            match self.model_name() {
                Some(m) => r.is_some() && r.unwrap()@ == m,
                None => r.is_none(),
            },
    {
        match &self.model {
            Some(m) => Some(m.as_str()),
            None => None,
        }
    }
}

} // verus!
