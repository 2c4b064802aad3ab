//! Which configuration files are read, in which order, and the configuration
//! they merge into.
use vstd::prelude::*;
use vstd::std_specs::cmp::PartialEqSpec;

use super::{ConfigEntry, ConfigSource, McpConfigCollection, OAuthConfig, RuntimeFeatureConfig};
use crate::paths::{join_path, parent_path, path_join, path_parent};
use crate::session::{copy_members, jmembers, lemma_compound_view, JView, JsonValue};
use crate::text::{chars_of, eq_vec, string_of};

verus! {

/// Finds the configuration files of a project and a user.
#[derive(Debug, Clone, Eq)]
pub struct ConfigLoader {
    pub(crate) cwd: String,
    pub(crate) config_home: String,
}

impl PartialEq for ConfigLoader {
    fn eq(&self, other: &Self) -> (r: bool) {
        self.cwd == other.cwd && self.config_home == other.config_home
    }
}

impl vstd::std_specs::cmp::PartialEqSpecImpl for ConfigLoader {
    open spec fn obeys_eq_spec() -> bool {
        true
    }

    open spec fn eq_spec(&self, other: &Self) -> bool {
        self.cwd_path() == other.cwd_path() && self.home_path() == other.home_path()
    }
}

/// Two loaders are equal exactly when they were made for the same project
/// directory and the same configuration home.
pub proof fn lemma_loaders_equal_iff_same_dirs(
    l1: ConfigLoader,
    l2: ConfigLoader,
    cwd1: Seq<char>,
    home1: Seq<char>,
    cwd2: Seq<char>,
    home2: Seq<char>,
)
    requires
        l1.cwd_path() == cwd1,
        l1.home_path() == home1,
        l2.cwd_path() == cwd2,
        l2.home_path() == home2,
    ensures
        l1.eq_spec(&l2) <==> (cwd1 == cwd2 && home1 == home2),
{
}

/// The configuration merged from the files that were found.
#[derive(Debug, Clone, PartialEq)]
pub struct RuntimeConfig {
    pub(crate) merged: Vec<(String, JsonValue)>,
    pub(crate) loaded_entries: Vec<ConfigEntry>,
    pub(crate) feature_config: RuntimeFeatureConfig,
}

/// The user-level legacy file: `.acrawl.json` beside the configuration home.
pub open spec fn legacy_user_path(config_home: Seq<char>) -> Seq<char> {
    match path_parent(config_home) {
        Some(p) => path_join(p, ".acrawl.json"@),
        None => ".acrawl.json"@,
    }
}

/// The files read, lowest precedence first: the legacy user file, the user
/// settings, the project file, the project settings and the local settings.
pub open spec fn discovered_paths(cwd: Seq<char>, config_home: Seq<char>) -> Seq<(ConfigSource, Seq<char>)> {
    seq![
        (ConfigSource::User, legacy_user_path(config_home)),
        (ConfigSource::User, path_join(config_home, "settings.json"@)),
        (ConfigSource::Project, path_join(cwd, ".acrawl.json"@)),
        (ConfigSource::Project, path_join(path_join(cwd, ".acrawl"@), "settings.json"@)),
        (ConfigSource::Local, path_join(path_join(cwd, ".acrawl"@), "settings.local.json"@)),
    ]
}

/// Configuration entries as `(source, path)` values.
pub open spec fn entry_views(es: Seq<ConfigEntry>) -> Seq<(ConfigSource, Seq<char>)> {
    es.map_values(|e: ConfigEntry| (e.source, e.path@))
}

impl ConfigLoader {
    /// The project directory.
    pub closed spec fn cwd_path(&self) -> Seq<char> {
        self.cwd@
    }

    /// The user configuration home.
    pub closed spec fn home_path(&self) -> Seq<char> {
        self.config_home@
    }

    /// A loader for the project in `cwd` and the user configuration in
    /// `config_home`.
    pub fn new(cwd: &str, config_home: &str) -> (l: Self)
        ensures
            l.cwd_path() == cwd@,
            l.home_path() == config_home@,
    {
        ConfigLoader { cwd: string_of(&chars_of(cwd)), config_home: string_of(&chars_of(config_home)) }
    }

    /// The five configuration files, lowest precedence first.
    pub fn discover(&self) -> (r: Vec<ConfigEntry>)
        ensures
            entry_views(r@) == discovered_paths(self.cwd_path(), self.home_path()),
    {
        let legacy = match parent_path(self.config_home.as_str()) {
            Some(p) => join_path(p.as_str(), ".acrawl.json"),
            None => string_of(&chars_of(".acrawl.json")),
        };
        let user = join_path(self.config_home.as_str(), "settings.json");
        let project = join_path(self.cwd.as_str(), ".acrawl.json");
        let dir = join_path(self.cwd.as_str(), ".acrawl");
        let project_settings = join_path(dir.as_str(), "settings.json");
        let local = join_path(dir.as_str(), "settings.local.json");
        let mut r: Vec<ConfigEntry> = Vec::new();
        r.push(ConfigEntry { source: ConfigSource::User, path: legacy });
        r.push(ConfigEntry { source: ConfigSource::User, path: user });
        r.push(ConfigEntry { source: ConfigSource::Project, path: project });
        r.push(ConfigEntry { source: ConfigSource::Project, path: project_settings });
        r.push(ConfigEntry { source: ConfigSource::Local, path: local });
        assert(entry_views(r@) =~= discovered_paths(self.cwd_path(), self.home_path()));
        r
    }
}

impl RuntimeConfig {
    /// The merged keys, in ascending order, with their values.
    pub closed spec fn merged_entries(&self) -> Seq<(Seq<char>, JView)> {
        jmembers(self.merged@)
    }

    /// The files that were found and read.
    pub closed spec fn loaded(&self) -> Seq<ConfigEntry> {
        self.loaded_entries@
    }

    /// The merged feature settings.
    pub closed spec fn features(&self) -> RuntimeFeatureConfig {
        self.feature_config
    }

    /// A configuration from its merged keys, the files read and the features.
    pub(crate) fn from_parts(
        merged: Vec<(String, JsonValue)>,
        loaded_entries: Vec<ConfigEntry>,
        feature_config: RuntimeFeatureConfig,
    ) -> (c: Self)
        ensures
            c.merged_entries() == jmembers(merged@),
            c.loaded() == loaded_entries@,
            c.features() == feature_config,
    {
        RuntimeConfig { merged, loaded_entries, feature_config }
    }

    /// A configuration with no files read.
    pub fn empty() -> (c: Self)
        ensures
            c.merged_entries().len() == 0,
            c.loaded().len() == 0,
            c.features().mcp_config().entries().len() == 0,
            c.features().oauth_config().is_none(),
            c.features().model_name().is_none(),
    {
        RuntimeConfig {
            merged: Vec::new(),
            loaded_entries: Vec::new(),
            feature_config: RuntimeFeatureConfig::default(),
        }
    }

    /// The merged keys and values, in ascending key order.
    pub fn merged(&self) -> (r: &Vec<(String, JsonValue)>)
        ensures
            jmembers(r@) == self.merged_entries(),
    {
        &self.merged
    }

    /// The files that were read, lowest precedence first.
    pub fn loaded_entries(&self) -> (r: &Vec<ConfigEntry>)
        ensures
            r@ == self.loaded(),
    {
        &self.loaded_entries
    }

    /// The merged value of `key`, if any file set it.
    pub fn get(&self, key: &str) -> (r: Option<&JsonValue>)
        ensures
            match r {
                Some(v) => merged_lookup(self.merged_entries(), key@) == Some(v@),
                None => merged_lookup(self.merged_entries(), key@) is None,
            },
    {
        let k = chars_of(key);
        let mut i: usize = 0;
        assert(self.merged_entries().skip(0) =~= self.merged_entries());
        while i < self.merged.len()
            invariant
                0 <= i <= self.merged.len(),
                k@ == key@,
                merged_lookup(self.merged_entries(), key@) == merged_lookup(
                    self.merged_entries().skip(i as int),
                    key@,
                ),
            decreases self.merged.len() - i,
        {
            let here = chars_of(self.merged[i].0.as_str());
            proof {
                let rest = self.merged_entries().skip(i as int);
                assert(rest[0] == self.merged_entries()[i as int]);
                assert(rest.drop_first() =~= self.merged_entries().skip(i + 1));
            }
            if eq_vec(&here, &k) {
                return Some(&self.merged[i].1);
            }
            i += 1;
        }
        None
    }

    /// The merged keys as one JSON object.
    pub fn as_json(&self) -> (r: JsonValue)
        ensures
            r@ == JView::Object(self.merged_entries()),
    {
        let v = JsonValue::Object(copy_members(&self.merged));
        proof {
            lemma_compound_view(v);
        }
        v
    }

    /// The merged feature settings.
    pub fn feature_config(&self) -> (r: &RuntimeFeatureConfig)
        ensures
            *r == self.features(),
    {
        &self.feature_config
    }

    /// The merged MCP servers.
    pub fn mcp(&self) -> (r: &McpConfigCollection)
        ensures
            *r == self.features().mcp_config(),
    {
        self.feature_config.mcp()
    }

    /// The merged OAuth settings, if any.
    pub fn oauth(&self) -> (r: Option<&OAuthConfig>)
        ensures
            match self.features().oauth_config() {
                Some(o) => r.is_some() && *r.unwrap() == o,
                None => r.is_none(),
            },
    {
        self.feature_config.oauth()
    }

    /// The merged model, if any.
    pub fn model(&self) -> (r: Option<&str>)
        ensures
            match self.features().model_name() {
                Some(m) => r.is_some() && r.unwrap()@ == m,
                None => r.is_none(),
            },
    {
        self.feature_config.model()
    }
}

/// The value of the first member whose key is `key`.
pub open spec fn merged_lookup(s: Seq<(Seq<char>, JView)>, key: Seq<char>) -> Option<JView>
    decreases s.len(),
{
    if s.len() == 0 {
        None
    } else if s[0].0 == key {
        Some(s[0].1)
    } else {
        merged_lookup(s.drop_first(), key)
    }
}

} // verus!
