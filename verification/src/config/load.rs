//! Building the runtime configuration from the files found: each present
//! file must hold an object; its MCP servers are read with the file's layer,
//! later definitions replacing earlier ones; the objects are deep-merged in
//! discovery order; OAuth and the model are read from the merged settings.
use vstd::prelude::*;

use super::features::RuntimeFeatureConfig;
use super::loader::RuntimeConfig;
use super::merge::{merge_members, merge_object};
use super::parse::{
    expect_object, lemma_server_exclusive, mcp_server_config_matches, model_of, oauth_matches,
    parse_mcp_server_config, parse_optional_model, parse_optional_oauth_config,
};
use super::{
    is_parse_error, ConfigEntry, ConfigError, ConfigSource, McpConfigCollection, McpServerConfig,
    OAuthConfig, ScopedMcpServerConfig,
};
use crate::session::{field, joined, jmembers, lemma_compound_view, member, JView, JsonValue};
use crate::text::{chars_of, eq_vec, push_all, push_str, string_of};

verus! {

/// The files as values: each entry with the JSON it holds, if it was found.
pub open spec fn files_view(files: Seq<(ConfigEntry, Option<JsonValue>)>) -> Seq<
    (ConfigEntry, Option<JView>),
> {
    files.map_values(
        |f: (ConfigEntry, Option<JsonValue>)|
            (
                f.0,
                match f.1 {
                    Some(j) => Some(j@),
                    None => None,
                },
            ),
    )
}

/// The entries of the files that were found, in discovery order.
pub open spec fn present(files: Seq<(ConfigEntry, Option<JView>)>) -> Seq<ConfigEntry>
    decreases files.len(),
{
    if files.len() == 0 {
        seq![]
    } else if files.last().1 is Some {
        present(files.drop_last()).push(files.last().0)
    } else {
        present(files.drop_last())
    }
}

/// The objects of the files that were found, deep-merged in discovery order.
pub open spec fn merged_of(files: Seq<(ConfigEntry, Option<JView>)>) -> Seq<(Seq<char>, JView)>
    decreases files.len(),
{
    if files.len() == 0 {
        seq![]
    } else {
        match files.last().1 {
            Some(JView::Object(o)) => merge_members(merged_of(files.drop_last()), o),
            _ => merged_of(files.drop_last()),
        }
    }
}

/// The context that names a server in errors.
pub open spec fn server_ctx(path: Seq<char>, name: Seq<char>) -> Seq<char> {
    path + ": mcpServers."@ + name
}

/// The message for a file that does not hold an object.
pub open spec fn top_level_error(path: Seq<char>) -> Seq<char> {
    path + ": top-level settings value must be a JSON object"@
}

/// A server definition reads without error.
pub open spec fn server_ok(name: Seq<char>, j: JView, ctx: Seq<char>) -> bool {
    exists|c: McpServerConfig| #[trigger] mcp_server_config_matches(name, j, ctx, Ok(c))
}

/// The MCP servers of one file's object read without error.
pub open spec fn servers_ok(o: Seq<(Seq<char>, JView)>, path: Seq<char>) -> bool {
    match field(o, "mcpServers"@) {
        None => true,
        Some(JView::Object(s)) => forall|k: int|
            0 <= k < s.len() ==> #[trigger] server_ok(s[k].0, s[k].1, server_ctx(path, s[k].0)),
        Some(_) => false,
    }
}

/// Every file that was found holds an object whose servers read.
pub open spec fn files_ok(files: Seq<(ConfigEntry, Option<JView>)>) -> bool {
    forall|i: int|
        0 <= i < files.len() ==> match #[trigger] files[i].1 {
            Some(JView::Object(o)) => servers_ok(o, files[i].0.path@),
            Some(_) => false,
            None => true,
        }
}

/// The OAuth block of the merged settings reads without error.
pub open spec fn oauth_ok(root: Seq<(Seq<char>, JView)>) -> bool {
    exists|o: Option<OAuthConfig>| #[trigger] oauth_matches(root, "merged settings.oauth"@, Ok(o))
}

/// A server definition: the layer, the JSON and the error context.
pub type ServerDef = (ConfigSource, JView, Seq<char>);

/// The servers of one `mcpServers` object added to `m`, later ones winning.
pub open spec fn defs_from(
    m: Map<Seq<char>, ServerDef>,
    s: Seq<(Seq<char>, JView)>,
    source: ConfigSource,
    path: Seq<char>,
) -> Map<Seq<char>, ServerDef>
    decreases s.len(),
{
    if s.len() == 0 {
        m
    } else {
        defs_from(m, s.drop_last(), source, path).insert(
            s.last().0,
            (source, s.last().1, server_ctx(path, s.last().0)),
        )
    }
}

/// The servers one file's object defines, added to `m`.
pub open spec fn file_defs(
    m: Map<Seq<char>, ServerDef>,
    o: Seq<(Seq<char>, JView)>,
    source: ConfigSource,
    path: Seq<char>,
) -> Map<Seq<char>, ServerDef> {
    match field(o, "mcpServers"@) {
        Some(JView::Object(s)) => defs_from(m, s, source, path),
        _ => m,
    }
}

/// The last definition of each server across the files that were found.
pub open spec fn server_defs(files: Seq<(ConfigEntry, Option<JView>)>) -> Map<Seq<char>, ServerDef>
    decreases files.len(),
{
    if files.len() == 0 {
        Map::empty()
    } else {
        let before = server_defs(files.drop_last());
        match files.last().1 {
            Some(JView::Object(o)) => file_defs(before, o, files.last().0.source, files.last().0.path@),
            _ => before,
        }
    }
}

/// The stored servers are exactly the defined ones, each read from its last
/// definition with that definition's layer, each name once.
pub open spec fn servers_match(
    v: Seq<(String, ScopedMcpServerConfig)>,
    defs: Map<Seq<char>, ServerDef>,
) -> bool {
    &&& forall|n: Seq<char>| #[trigger] defs.contains_key(n) <==> has_server(v, n)
    &&& forall|k: int|
        0 <= k < v.len() ==> {
            let d = defs[#[trigger] v[k].0@];
            &&& v[k].1.scope == d.0
            &&& mcp_server_config_matches(v[k].0@, d.1, d.2, Ok(v[k].1.config))
        }
    &&& forall|a: int, b: int| 0 <= a < b < v.len() ==> #[trigger] v[a].0@ != #[trigger] v[b].0@
}

/// Some stored server has the name `n`.
pub open spec fn has_server(v: Seq<(String, ScopedMcpServerConfig)>, n: Seq<char>) -> bool {
    exists|k: int| 0 <= k < v.len() && #[trigger] v[k].0@ == n
}

/// Puts a server in the list: replacing the one of that name, or inserting
/// it before the first greater name.
#[verifier::loop_isolation(false)]
fn put_server(v: &mut Vec<(String, ScopedMcpServerConfig)>, name: &String, server: ScopedMcpServerConfig)
    requires
        forall|a: int, b: int|
            0 <= a < b < old(v)@.len() ==> #[trigger] old(v)@[a].0@ != #[trigger] old(v)@[b].0@,
    ensures
        forall|a: int, b: int|
            0 <= a < b < final(v)@.len() ==> #[trigger] final(v)@[a].0@ != #[trigger] final(v)@[b].0@,
        forall|n: Seq<char>| #[trigger] has_server(final(v)@, n) <==> (n == name@ || has_server(old(v)@, n)),
        forall|k: int|
            0 <= k < final(v)@.len() ==> if #[trigger] final(v)@[k].0@ == name@ {
                final(v)@[k].1 == server
            } else {
                exists|j: int| 0 <= j < old(v)@.len() && old(v)@[j] == final(v)@[k]
            },
{
    let key = chars_of(name.as_str());
    let mut i: usize = 0;
    while i < v.len()
        invariant
            0 <= i <= v.len(),
            key@ == name@,
            v@ == old(v)@,
            forall|j: int| 0 <= j < i ==> #[trigger] v@[j].0@ != name@,
        decreases v.len() - i,
    {
        let here = chars_of(v[i].0.as_str());
        if eq_vec(&here, &key) {
            let ghost before = v@;
            v.set(i, (name.clone(), server));
            proof {
                assert forall|n: Seq<char>| #[trigger] has_server(v@, n) <==> (n == name@ || has_server(before, n)) by {
                    if n == name@ {
                        assert(v@[i as int].0@ == n);
                    }
                    if has_server(before, n) {
                        let k = choose|k: int| 0 <= k < before.len() && #[trigger] before[k].0@ == n;
                        if k != i {
                            assert(v@[k].0@ == n);
                        }
                    }
                }
                assert forall|k: int| 0 <= k < v@.len() implies if #[trigger] v@[k].0@ == name@ {
                    v@[k].1 == server
                } else {
                    exists|j: int| 0 <= j < before.len() && before[j] == v@[k]
                } by {
                    if k != i {
                        assert(before[k] == v@[k]);
                        if v@[k].0@ == name@ {
                            assert(before[i as int].0@ == name@);
                        }
                    }
                }
            }
            return;
        }
        i += 1;
    }
    assert(v@ == old(v)@);
    assert(forall|j: int| 0 <= j < v@.len() ==> #[trigger] v@[j].0@ != name@);
    let mut p: usize = 0;
    while p < v.len()
        invariant
            0 <= p <= v.len(),
            v@ == old(v)@,
        decreases v.len() - p,
    {
        let here = chars_of(v[p].0.as_str());
        if crate::text::lex_less(&key, &here) {
            break;
        }
        p += 1;
    }
    let ghost before = v@;
    v.insert(p, (name.clone(), server));
    proof {
        assert(before == old(v)@);
        assert(v@[p as int].0@ == name@);
        assert forall|k: int| 0 <= k < v@.len() && k != p implies #[trigger] v@[k] == (if k < p {
            before[k]
        } else {
            before[k - 1]
        }) by {}
        assert forall|n: Seq<char>| #[trigger] has_server(v@, n) <==> (n == name@ || has_server(before, n)) by {
            if n == name@ {
                assert(v@[p as int].0@ == n);
            }
            if has_server(before, n) {
                let k = choose|k: int| 0 <= k < before.len() && #[trigger] before[k].0@ == n;
                if k < p {
                    assert(v@[k].0@ == n);
                } else {
                    assert(v@[k + 1].0@ == n);
                }
            }
            if has_server(v@, n) {
                let k = choose|k: int| 0 <= k < v@.len() && #[trigger] v@[k].0@ == n;
                if k < p {
                    assert(before[k].0@ == n);
                } else if k > p {
                    assert(before[k - 1].0@ == n);
                }
            }
        }
        assert forall|k: int| 0 <= k < v@.len() implies if #[trigger] v@[k].0@ == name@ {
            v@[k].1 == server
        } else {
            exists|j: int| 0 <= j < before.len() && before[j] == v@[k]
        } by {
            if k < p {
                assert(before[k] == v@[k]);
            } else if k > p {
                assert(before[k - 1] == v@[k]);
            }
        }
        assert forall|a: int, b: int| 0 <= a < b < v@.len() implies #[trigger] v@[a].0@
            != #[trigger] v@[b].0@ by {
            if a == p {
                assert(before[b - 1].0@ != name@);
            } else if b == p {
                assert(before[a].0@ != name@);
            } else {
                let a0 = if a < p { a } else { a - 1 };
                let b0 = if b < p { b } else { b - 1 };
                assert(v@[a] == before[a0] && v@[b] == before[b0]);
            }
        }
    }
}


/// Reads the MCP servers of one file's object into `target`, with the
/// file's layer; fails on the first server that does not read.
fn merge_mcp_servers(
    target: &mut Vec<(String, ScopedMcpServerConfig)>,
    source: ConfigSource,
    root: &Vec<(String, JsonValue)>,
    path: &String,
    Ghost(m): Ghost<Map<Seq<char>, ServerDef>>,
) -> (r: Result<(), ConfigError>)
    requires
        servers_match(old(target)@, m),
    ensures
        r is Ok <==> servers_ok(jmembers(root@), path@),
        r is Err ==> r matches Err(ConfigError::Parse(_)),
        r is Ok ==> servers_match(final(target)@, file_defs(m, jmembers(root@), source, path@)),
{
    let value = match member(root, "mcpServers") {
        None => return Ok(()),
        Some(v) => v,
    };
    let ctx = joined(path.as_str(), ": mcpServers");
    let servers = match expect_object(value, ctx.as_str()) {
        Ok(s) => s,
        Err(e) => return Err(e),
    };
    let ghost s = jmembers(servers@);
    let mut k: usize = 0;
    assert(s.take(0) =~= Seq::<(Seq<char>, JView)>::empty());
    while k < servers.len()
        invariant
            0 <= k <= servers.len(),
            s == jmembers(servers@),
            field(jmembers(root@), "mcpServers"@) == Some(JView::Object(s)),
            servers_match(target@, defs_from(m, s.take(k as int), source, path@)),
            forall|j: int| 0 <= j < k ==> #[trigger] server_ok(s[j].0, s[j].1, server_ctx(path@, s[j].0)),
        decreases servers.len() - k,
    {
        let name = &servers[k].0;
        let mut cv = chars_of(path.as_str());
        push_str(&mut cv, ": mcpServers.");
        push_all(&mut cv, &chars_of(name.as_str()));
        let sctx = string_of(&cv);
        proof {
            reveal_strlit(": mcpServers.");
            assert(sctx@ == server_ctx(path@, s[k as int].0));
        }
        match parse_mcp_server_config(name.as_str(), &servers[k].1, sctx.as_str()) {
            Err(e) => {
                proof {
                    assert(s[k as int].0 == name@ && s[k as int].1 == servers@[k as int].1@);
                    if server_ok(s[k as int].0, s[k as int].1, server_ctx(path@, s[k as int].0)) {
                        let c = choose|c: McpServerConfig| #[trigger] mcp_server_config_matches(
                            s[k as int].0, s[k as int].1, server_ctx(path@, s[k as int].0), Ok(c));
                        lemma_server_exclusive(s[k as int].0, s[k as int].1, server_ctx(path@, s[k as int].0), c, e);
                    }
                    assert(!server_ok(s[k as int].0, s[k as int].1, server_ctx(path@, s[k as int].0)));
                    let o = jmembers(root@);
                    assert(field(o, "mcpServers"@) == Some(JView::Object(s)));
                    if servers_ok(o, path@) {
                        lemma_servers_ok_at(o, path@, s, k as int);
                    }
                }
                return Err(e);
            },
            Ok(c) => {
                let ghost before = target@;
                let ghost defs = defs_from(m, s.take(k as int), source, path@);
                let ghost d: ServerDef = (source, s[k as int].1, server_ctx(path@, s[k as int].0));
                put_server(target, name, ScopedMcpServerConfig { scope: source, config: c });
                proof {
                    assert(s.take(k + 1).drop_last() =~= s.take(k as int));
                    let defs2 = defs_from(m, s.take(k + 1), source, path@);
                    assert(defs2 == defs.insert(name@, d));
                    assert forall|n: Seq<char>| #[trigger] defs2.contains_key(n) <==> has_server(target@, n) by {
                        assert(defs.contains_key(n) <==> has_server(before, n));
                    }
                    assert forall|q: int| 0 <= q < target@.len() implies {
                        let dd = defs2[#[trigger] target@[q].0@];
                        &&& target@[q].1.scope == dd.0
                        &&& mcp_server_config_matches(target@[q].0@, dd.1, dd.2, Ok(target@[q].1.config))
                    } by {
                        if target@[q].0@ != name@ {
                            let j = choose|j: int| 0 <= j < before.len() && before[j] == target@[q];
                            assert(before[j].0@ == target@[q].0@);
                        }
                    }
                    assert(server_ok(s[k as int].0, s[k as int].1, server_ctx(path@, s[k as int].0)));
                }
            },
        }
        k += 1;
    }
    assert(s.take(servers.len() as int) =~= s);
    Ok(())
}


proof fn lemma_servers_ok_at(o: Seq<(Seq<char>, JView)>, path: Seq<char>, s: Seq<(Seq<char>, JView)>, k: int)
    requires
        field(o, "mcpServers"@) == Some(JView::Object(s)),
        servers_ok(o, path),
        0 <= k < s.len(),
    ensures
        server_ok(s[k].0, s[k].1, server_ctx(path, s[k].0)),
{
    let f = field(o, "mcpServers"@);
    assert(f matches Some(JView::Object(x)) && x == s);
    assert(match f {
        None => true,
        Some(JView::Object(x)) => forall|j: int|
            0 <= j < x.len() ==> #[trigger] server_ok(x[j].0, x[j].1, server_ctx(path, x[j].0)),
        Some(_) => false,
    });
}


/// The runtime configuration built from the files found, lowest precedence
/// first, each with its JSON when it was read.
///
/// It fails exactly when a file that was read does not hold an object, when
/// a server definition of such a file does not read, or when the OAuth
/// block of the merged settings does not read. Otherwise the files read are
/// kept in order, their objects are deep-merged in order, each server is
/// read from its last definition and carries that file's layer, and OAuth
/// and the model are read from the merged settings.
pub fn load_config_files(files: &Vec<(ConfigEntry, Option<JsonValue>)>) -> (r: Result<
    RuntimeConfig,
    ConfigError,
>)
    ensures
        r is Ok <==> files_ok(files_view(files@)) && oauth_ok(merged_of(files_view(files@))),
        r is Err ==> r matches Err(ConfigError::Parse(_)),
        r matches Ok(c) ==> {
            &&& c.loaded() == present(files_view(files@))
            &&& c.merged_entries() == merged_of(files_view(files@))
            &&& servers_match(c.features().mcp_config().entries(), server_defs(files_view(files@)))
            &&& oauth_matches(
                c.merged_entries(),
                "merged settings.oauth"@,
                Ok(c.features().oauth_config()),
            )
            &&& c.features().model_name() == model_of(c.merged_entries())
        },
{
    let ghost fv = files_view(files@);
    let mut merged: Vec<(String, JsonValue)> = Vec::new();
    let mut loaded: Vec<ConfigEntry> = Vec::new();
    let mut servers: Vec<(String, ScopedMcpServerConfig)> = Vec::new();
    let mut i: usize = 0;
    proof {
        assert(fv.take(0) =~= Seq::<(ConfigEntry, Option<JView>)>::empty());
        assert(jmembers(merged@) =~= Seq::<(Seq<char>, JView)>::empty());
        assert(loaded@ =~= Seq::<ConfigEntry>::empty());
    }
    while i < files.len()
        invariant
            0 <= i <= files.len(),
            fv == files_view(files@),
            files_ok(fv.take(i as int)),
            loaded@ == present(fv.take(i as int)),
            jmembers(merged@) == merged_of(fv.take(i as int)),
            servers_match(servers@, server_defs(fv.take(i as int))),
        decreases files.len() - i,
    {
        let ghost prev = fv.take(i as int);
        let ghost next = fv.take(i + 1);
        proof {
            assert(next.drop_last() =~= prev);
            assert(next.last() == fv[i as int]);
            assert(fv[i as int].0 == files@[i as int].0);
        }
        let entry = &files[i].0;
        match &files[i].1 {
            None => {
                proof {
                    assert(fv[i as int].1 is None);
                    assert forall|j: int| 0 <= j < next.len() implies match #[trigger] next[j].1 {
                        Some(JView::Object(o)) => servers_ok(o, next[j].0.path@),
                        Some(_) => false,
                        None => true,
                    } by {
                        if j < i {
                            assert(next[j] == prev[j]);
                        }
                    }
                }
            },
            Some(value) => {
                proof {
                    lemma_compound_view(*value);
                    assert(fv[i as int].1 == Some(value@));
                }
                let root = match value {
                    JsonValue::Object(o) => o,
                    _ => {
                        proof {
                            assert(!(fv[i as int].1 matches Some(JView::Object(_))));
                            if files_ok(fv) {
                                assert(match fv[i as int].1 {
                                    Some(JView::Object(o)) => servers_ok(o, fv[i as int].0.path@),
                                    Some(_) => false,
                                    None => true,
                                });
                            }
                        }
                        return Err(
                            ConfigError::Parse(
                                joined(entry.path.as_str(), ": top-level settings value must be a JSON object"),
                            ),
                        );
                    },
                };
                match merge_mcp_servers(
                    &mut servers,
                    entry.source,
                    root,
                    &entry.path,
                    Ghost(server_defs(prev)),
                ) {
                    Ok(()) => {},
                    Err(e) => {
                        proof {
                            if files_ok(fv) {
                                assert(match fv[i as int].1 {
                                    Some(JView::Object(o)) => servers_ok(o, fv[i as int].0.path@),
                                    Some(_) => false,
                                    None => true,
                                });
                            }
                        }
                        return Err(e);
                    },
                }
                merge_object(&mut merged, root);
                loaded.push(ConfigEntry { source: entry.source, path: entry.path.clone() });
                proof {
                    assert forall|j: int| 0 <= j < next.len() implies match #[trigger] next[j].1 {
                        Some(JView::Object(o)) => servers_ok(o, next[j].0.path@),
                        Some(_) => false,
                        None => true,
                    } by {
                        if j < i {
                            assert(next[j] == prev[j]);
                        }
                    }
                }
            },
        }
        i += 1;
    }
    proof {
        assert(fv.take(files.len() as int) =~= fv);
    }
    let oauth = match parse_optional_oauth_config(&merged, "merged settings.oauth") {
        Ok(o) => o,
        Err(e) => {
            proof {
                if oauth_ok(merged_of(fv)) {
                    let o = choose|o: Option<OAuthConfig>| #[trigger] oauth_matches(
                        merged_of(fv),
                        "merged settings.oauth"@,
                        Ok(o),
                    );
                    assert(false);
                }
            }
            return Err(e);
        },
    };
    let model = parse_optional_model(&merged);
    proof {
        assert(oauth_ok(merged_of(fv)));
    }
    let features = RuntimeFeatureConfig::from_parts(McpConfigCollection::with_servers(servers), oauth, model);
    Ok(RuntimeConfig::from_parts(merged, loaded, features))
}

} // verus!
