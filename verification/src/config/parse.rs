//! Reading typed settings out of configuration JSON: string, number, flag,
//! list and map fields, each with the error that names it when it has the
//! wrong shape.
use std::collections::BTreeMap;

use vstd::prelude::*;

use super::{
    is_parse_error, ConfigError, McpClaudeAiProxyServerConfig, McpOAuthConfig,
    McpRemoteServerConfig, McpSdkServerConfig, McpServerConfig, McpStdioServerConfig,
    McpWebSocketServerConfig, OAuthConfig,
};
use crate::message::opt_view;
use crate::session::{
    field, jitems, jmembers, joined, lemma_compound_view, member, text_of, JView, JsonValue,
};
use crate::text::{chars_of, push_str, string_of, views};

verus! {

/// `context: field key what`.
pub open spec fn field_error(ctx: Seq<char>, key: Seq<char>, what: Seq<char>) -> Seq<char> {
    ctx + ": field "@ + key + " "@ + what
}

/// A required string field.
pub open spec fn string_field(o: Seq<(Seq<char>, JView)>, key: Seq<char>, ctx: Seq<char>) -> Result<
    Seq<char>,
    Seq<char>,
> {
    match field(o, key) {
        Some(JView::Str(s)) => Ok(s),
        _ => Err(ctx + ": missing string field "@ + key),
    }
}

/// An optional string field.
pub open spec fn opt_string_field(o: Seq<(Seq<char>, JView)>, key: Seq<char>, ctx: Seq<char>) -> Result<
    Option<Seq<char>>,
    Seq<char>,
> {
    match field(o, key) {
        None => Ok(None),
        Some(JView::Str(s)) => Ok(Some(s)),
        Some(_) => Err(field_error(ctx, key, "must be a string"@)),
    }
}

/// An optional port number field.
pub open spec fn opt_u16_field(o: Seq<(Seq<char>, JView)>, key: Seq<char>, ctx: Seq<char>) -> Result<
    Option<u16>,
    Seq<char>,
> {
    match field(o, key) {
        None => Ok(None),
        Some(JView::Number(n)) => if 0 <= n <= u16::MAX {
            Ok(Some(n as u16))
        } else {
            Err(field_error(ctx, key, "must be an integer between 0 and 65535"@))
        },
        Some(_) => Err(field_error(ctx, key, "must be an integer between 0 and 65535"@)),
    }
}

/// An optional flag field.
pub open spec fn opt_bool_field(o: Seq<(Seq<char>, JView)>, key: Seq<char>, ctx: Seq<char>) -> Result<
    Option<bool>,
    Seq<char>,
> {
    match field(o, key) {
        None => Ok(None),
        Some(JView::Bool(b)) => Ok(Some(b)),
        Some(_) => Err(field_error(ctx, key, "must be a boolean"@)),
    }
}

/// Every item is a string.
pub open spec fn all_strings(a: Seq<JView>) -> bool {
    forall|i: int| 0 <= i < a.len() ==> #[trigger] a[i] is Str
}

/// The strings of an all-string array.
pub open spec fn strings_of(a: Seq<JView>) -> Seq<Seq<char>> {
    Seq::new(a.len(), |i: int| a[i]->Str_0)
}

/// An optional list-of-strings field.
pub open spec fn opt_string_array_field(
    o: Seq<(Seq<char>, JView)>,
    key: Seq<char>,
    ctx: Seq<char>,
) -> Result<Option<Seq<Seq<char>>>, Seq<char>> {
    match field(o, key) {
        None => Ok(None),
        Some(JView::Array(a)) => if all_strings(a) {
            Ok(Some(strings_of(a)))
        } else {
            Err(field_error(ctx, key, "must be an array of strings"@))
        },
        Some(_) => Err(field_error(ctx, key, "must be an array of strings"@)),
    }
}

/// Every member's value is a string.
pub open spec fn all_string_members(m: Seq<(Seq<char>, JView)>) -> bool {
    forall|i: int| 0 <= i < m.len() ==> #[trigger] m[i].1 is Str
}

/// An optional string-to-string map field: an error unless it is an object
/// of strings.
pub open spec fn opt_string_map_error(o: Seq<(Seq<char>, JView)>, key: Seq<char>, ctx: Seq<char>) -> Option<
    Seq<char>,
> {
    match field(o, key) {
        None => None,
        Some(JView::Object(m)) => if all_string_members(m) {
            None
        } else {
            Some(ctx + ": field "@ + key + " must contain only string values"@)
        },
        Some(_) => Some(ctx + ": field "@ + key + " must be an object"@),
    }
}

/// A required string field.
pub fn expect_string(o: &Vec<(String, JsonValue)>, key: &str, ctx: &str) -> (r: Result<String, ConfigError>)
    ensures
        match string_field(jmembers(o@), key@, ctx@) {
            Ok(s) => r matches Ok(x) && x@ == s,
            Err(e) => is_parse_error(r, e),
        },
{
    match member(o, key) {
        Some(JsonValue::String(s)) => Ok(s.clone()),
        _ => {
            let mut v = chars_of(ctx);
            push_str(&mut v, ": missing string field ");
            push_str(&mut v, key);
            Err(ConfigError::Parse(string_of(&v)))
        },
    }
}

/// The message `context: field key what`.
fn field_error_text(ctx: &str, key: &str, what: &str) -> (r: String)
    ensures
        r@ == field_error(ctx@, key@, what@),
{
    let mut v = chars_of(ctx);
    push_str(&mut v, ": field ");
    push_str(&mut v, key);
    push_str(&mut v, " ");
    push_str(&mut v, what);
    string_of(&v)
}

/// An optional string field.
pub fn optional_string(o: &Vec<(String, JsonValue)>, key: &str, ctx: &str) -> (r: Result<
    Option<String>,
    ConfigError,
>)
    ensures
        match opt_string_field(jmembers(o@), key@, ctx@) {
            Ok(Some(s)) => r matches Ok(Some(x)) && x@ == s,
            Ok(None) => r matches Ok(None),
            Err(e) => is_parse_error(r, e),
        },
{
    proof {
        reveal_strlit("must be a string");
    }
    match member(o, key) {
        None => Ok(None),
        Some(JsonValue::String(s)) => Ok(Some(s.clone())),
        Some(_) => Err(ConfigError::Parse(field_error_text(ctx, key, "must be a string"))),
    }
}

/// An optional port number field.
pub fn optional_u16(o: &Vec<(String, JsonValue)>, key: &str, ctx: &str) -> (r: Result<
    Option<u16>,
    ConfigError,
>)
    ensures
        match opt_u16_field(jmembers(o@), key@, ctx@) {
            Ok(n) => r matches Ok(x) && x == n,
            Err(e) => is_parse_error(r, e),
        },
{
    match member(o, key) {
        None => Ok(None),
        Some(JsonValue::Number(n)) => {
            if 0 <= *n && *n <= 65535 {
                Ok(Some(*n as u16))
            } else {
                Err(
                    ConfigError::Parse(
                        field_error_text(ctx, key, "must be an integer between 0 and 65535"),
                    ),
                )
            }
        },
        Some(_) => Err(
            ConfigError::Parse(field_error_text(ctx, key, "must be an integer between 0 and 65535")),
        ),
    }
}

/// An optional flag field.
pub fn optional_bool(o: &Vec<(String, JsonValue)>, key: &str, ctx: &str) -> (r: Result<
    Option<bool>,
    ConfigError,
>)
    ensures
        match opt_bool_field(jmembers(o@), key@, ctx@) {
            Ok(b) => r matches Ok(x) && x == b,
            Err(e) => is_parse_error(r, e),
        },
{
    match member(o, key) {
        None => Ok(None),
        Some(JsonValue::Bool(b)) => Ok(Some(*b)),
        Some(_) => Err(ConfigError::Parse(field_error_text(ctx, key, "must be a boolean"))),
    }
}

/// An optional list-of-strings field.
#[verifier::loop_isolation(false)]
pub fn optional_string_array(o: &Vec<(String, JsonValue)>, key: &str, ctx: &str) -> (r: Result<
    Option<Vec<String>>,
    ConfigError,
>)
    ensures
        match opt_string_array_field(jmembers(o@), key@, ctx@) {
            Ok(Some(a)) => r matches Ok(Some(x)) && views(x@) == a,
            Ok(None) => r matches Ok(None),
            Err(e) => is_parse_error(r, e),
        },
{
    match member(o, key) {
        None => Ok(None),
        Some(j) => {
            proof {
                lemma_compound_view(*j);
            }
            match j {
                JsonValue::Array(items) => {
                    let ghost a = jitems(items@);
                    let mut out: Vec<String> = Vec::new();
                    let mut i: usize = 0;
                    while i < items.len()
                        invariant
                            0 <= i <= items.len(),
                            a == jitems(items@),
                            views(out@) =~= strings_of(a.take(i as int)),
                            all_strings(a.take(i as int)),
                        decreases items.len() - i,
                    {
                        proof {
                            assert(a[i as int] == items@[i as int]@);
                        }
                        match &items[i] {
                            JsonValue::String(s) => {
                                let ghost before = out@;
                                out.push(s.clone());
                                proof {
                                    assert(a.take(i + 1) =~= a.take(i as int).push(a[i as int]));
                                    assert(views(out@) =~= views(before).push(s@));
                                }
                            },
                            _ => {
                                proof {
                                    assert(!(a[i as int] is Str));
                                    assert(!all_strings(a));
                                }
                                return Err(
                                    ConfigError::Parse(
                                        field_error_text(ctx, key, "must be an array of strings"),
                                    ),
                                );
                            },
                        }
                        i += 1;
                    }
                    proof {
                        assert(a.take(items.len() as int) =~= a);
                    }
                    Ok(Some(out))
                },
                _ => Err(
                    ConfigError::Parse(field_error_text(ctx, key, "must be an array of strings")),
                ),
            }
        },
    }
}

/// An optional string-to-string map field, as a sorted map. Its error is
/// exact; the map's contents are left to `BTreeMap`, whose insertion Verus
/// can state only for keys it knows to be ordered.
#[verifier::loop_isolation(false)]
pub fn optional_string_map(o: &Vec<(String, JsonValue)>, key: &str, ctx: &str) -> (r: Result<
    Option<BTreeMap<String, String>>,
    ConfigError,
>)
    ensures
        match opt_string_map_error(jmembers(o@), key@, ctx@) {
            Some(e) => is_parse_error(r, e),
            None => r is Ok && (r->Ok_0 is None <==> field(jmembers(o@), key@) is None),
        },
{
    match member(o, key) {
        None => Ok(None),
        Some(j) => {
            proof {
                lemma_compound_view(*j);
            }
            match j {
                JsonValue::Object(entries) => {
                    let ghost m = jmembers(entries@);
                    let mut out: BTreeMap<String, String> = BTreeMap::new();
                    let mut i: usize = 0;
                    while i < entries.len()
                        invariant
                            0 <= i <= entries.len(),
                            m == jmembers(entries@),
                            forall|k: int| 0 <= k < i ==> #[trigger] m[k].1 is Str,
                        decreases entries.len() - i,
                    {
                        proof {
                            assert(m[i as int].1 == entries@[i as int].1@);
                        }
                        match &entries[i].1 {
                            JsonValue::String(s) => {
                                out.insert(entries[i].0.clone(), s.clone());
                            },
                            _ => {
                                proof {
                                    assert(!all_string_members(m));
                                }
                                let mut v = chars_of(ctx);
                                push_str(&mut v, ": field ");
                                push_str(&mut v, key);
                                push_str(&mut v, " must contain only string values");
                                return Err(ConfigError::Parse(string_of(&v)));
                            },
                        }
                        i += 1;
                    }
                    Ok(Some(out))
                },
                _ => {
                    let mut v = chars_of(ctx);
                    push_str(&mut v, ": field ");
                    push_str(&mut v, key);
                    push_str(&mut v, " must be an object");
                    Err(ConfigError::Parse(string_of(&v)))
                },
            }
        },
    }
}

// ---------------------------------------------------------------------------
// MCP servers
// ---------------------------------------------------------------------------

/// The message for a value that must be an object.
pub open spec fn object_error(ctx: Seq<char>) -> Seq<char> {
    ctx + ": expected a JSON object"@
}

/// The members of a value that must be an object.
pub fn expect_object<'a>(value: &'a JsonValue, ctx: &str) -> (r: Result<
    &'a Vec<(String, JsonValue)>,
    ConfigError,
>)
    ensures
        match value@ {
            JView::Object(m) => r matches Ok(x) && jmembers(x@) == m,
            _ => is_parse_error(r, object_error(ctx@)),
        },
{
    proof {
        lemma_compound_view(*value);
    }
    match value {
        JsonValue::Object(m) => Ok(m),
        _ => Err(ConfigError::Parse(joined(ctx, ": expected a JSON object"))),
    }
}

/// `r` is the OAuth block of a remote server read from `o`.
pub open spec fn mcp_oauth_matches(
    o: Seq<(Seq<char>, JView)>,
    ctx: Seq<char>,
    r: Result<Option<McpOAuthConfig>, ConfigError>,
) -> bool {
    match field(o, "oauth"@) {
        None => r matches Ok(None),
        Some(JView::Object(a)) => match opt_string_field(a, "clientId"@, ctx) {
            Err(e) => is_parse_error(r, e),
            Ok(client_id) => match opt_u16_field(a, "callbackPort"@, ctx) {
                Err(e) => is_parse_error(r, e),
                Ok(callback_port) => match opt_string_field(a, "authServerMetadataUrl"@, ctx) {
                    Err(e) => is_parse_error(r, e),
                    Ok(url) => match opt_bool_field(a, "xaa"@, ctx) {
                        Err(e) => is_parse_error(r, e),
                        Ok(xaa) => r matches Ok(Some(c)) && opt_view(c.client_id) == client_id
                            && c.callback_port == callback_port && opt_view(
                            c.auth_server_metadata_url,
                        ) == url && c.xaa == xaa,
                    },
                },
            },
        },
        Some(_) => is_parse_error(r, object_error(ctx + ".oauth"@)),
    }
}

/// `r` is the remote server (SSE or HTTP) read from `o`.
pub open spec fn remote_matches(
    o: Seq<(Seq<char>, JView)>,
    ctx: Seq<char>,
    r: Result<McpRemoteServerConfig, ConfigError>,
) -> bool {
    match string_field(o, "url"@, ctx) {
        Err(e) => is_parse_error(r, e),
        Ok(url) => match opt_string_map_error(o, "headers"@, ctx) {
            Some(e) => is_parse_error(r, e),
            None => match opt_string_field(o, "headersHelper"@, ctx) {
                Err(e) => is_parse_error(r, e),
                Ok(helper) => exists|oa: Result<Option<McpOAuthConfig>, ConfigError>|
                    #[trigger] mcp_oauth_matches(o, ctx, oa) && match oa {
                        Err(ConfigError::Parse(m)) => is_parse_error(r, m@),
                        Err(_) => false,
                        Ok(oauth) => r matches Ok(c) && c.url@ == url && opt_view(c.headers_helper)
                            == helper && c.oauth == oauth,
                    },
            },
        },
    }
}

/// The server type an object names: `stdio` when it names none.
pub open spec fn server_type(o: Seq<(Seq<char>, JView)>, ctx: Seq<char>) -> Result<
    Seq<char>,
    Seq<char>,
> {
    match opt_string_field(o, "type"@, ctx) {
        Err(e) => Err(e),
        Ok(None) => Ok("stdio"@),
        Ok(Some(t)) => Ok(t),
    }
}

/// `r` is the configuration of the MCP server `name` read from `j`: an
/// object whose `type` (default `stdio`) selects the fields required.
pub open spec fn mcp_server_config_matches(
    name: Seq<char>,
    j: JView,
    ctx: Seq<char>,
    r: Result<McpServerConfig, ConfigError>,
) -> bool {
    match j {
        JView::Object(o) => match server_type(o, ctx) {
            Err(e) => is_parse_error(r, e),
            Ok(t) => if t == "stdio"@ {
                match string_field(o, "command"@, ctx) {
                    Err(e) => is_parse_error(r, e),
                    Ok(command) => match opt_string_array_field(o, "args"@, ctx) {
                        Err(e) => is_parse_error(r, e),
                        Ok(args) => match opt_string_map_error(o, "env"@, ctx) {
                            Some(e) => is_parse_error(r, e),
                            None => r matches Ok(McpServerConfig::Stdio(c)) && c.command@
                                == command && views(c.args@) == match args {
                                Some(a) => a,
                                None => seq![],
                            },
                        },
                    },
                }
            } else if t == "sse"@ || t == "http"@ {
                exists|rr: Result<McpRemoteServerConfig, ConfigError>|
                    #[trigger] remote_matches(o, ctx, rr) && match rr {
                        Err(ConfigError::Parse(m)) => is_parse_error(r, m@),
                        Err(_) => false,
                        Ok(c) => if t == "sse"@ {
                            r == Ok::<McpServerConfig, ConfigError>(McpServerConfig::Sse(c))
                        } else {
                            r == Ok::<McpServerConfig, ConfigError>(McpServerConfig::Http(c))
                        },
                    }
            } else if t == "ws"@ {
                match string_field(o, "url"@, ctx) {
                    Err(e) => is_parse_error(r, e),
                    Ok(url) => match opt_string_map_error(o, "headers"@, ctx) {
                        Some(e) => is_parse_error(r, e),
                        None => match opt_string_field(o, "headersHelper"@, ctx) {
                            Err(e) => is_parse_error(r, e),
                            Ok(helper) => r matches Ok(McpServerConfig::Ws(c)) && c.url@ == url
                                && opt_view(c.headers_helper) == helper,
                        },
                    },
                }
            } else if t == "sdk"@ {
                match string_field(o, "name"@, ctx) {
                    Err(e) => is_parse_error(r, e),
                    Ok(n) => r matches Ok(McpServerConfig::Sdk(c)) && c.name@ == n,
                }
            } else if t == "claudeai-proxy"@ {
                match string_field(o, "url"@, ctx) {
                    Err(e) => is_parse_error(r, e),
                    Ok(url) => match string_field(o, "id"@, ctx) {
                        Err(e) => is_parse_error(r, e),
                        Ok(id) => r matches Ok(McpServerConfig::ClaudeAiProxy(c)) && c.url@ == url
                            && c.id@ == id,
                    },
                }
            } else {
                is_parse_error(
                    r,
                    ctx + ": unsupported MCP server type for "@ + name + ": "@ + t,
                )
            },
        },
        _ => is_parse_error(r, object_error(ctx)),
    }
}

/// The OAuth block of a remote server.
fn parse_optional_mcp_oauth_config(o: &Vec<(String, JsonValue)>, ctx: &str) -> (r: Result<
    Option<McpOAuthConfig>,
    ConfigError,
>)
    ensures
        mcp_oauth_matches(jmembers(o@), ctx@, r),
        r is Err ==> r matches Err(ConfigError::Parse(_)),
{
    let value = match member(o, "oauth") {
        None => return Ok(None),
        Some(v) => v,
    };
    let mut c = chars_of(ctx);
    push_str(&mut c, ".oauth");
    let cs = string_of(&c);
    let a = match expect_object(value, cs.as_str()) {
        Ok(a) => a,
        Err(e) => return Err(e),
    };
    let client_id = match optional_string(a, "clientId", ctx) {
        Ok(x) => x,
        Err(e) => return Err(e),
    };
    let callback_port = match optional_u16(a, "callbackPort", ctx) {
        Ok(x) => x,
        Err(e) => return Err(e),
    };
    let url = match optional_string(a, "authServerMetadataUrl", ctx) {
        Ok(x) => x,
        Err(e) => return Err(e),
    };
    let xaa = match optional_bool(a, "xaa", ctx) {
        Ok(x) => x,
        Err(e) => return Err(e),
    };
    Ok(Some(McpOAuthConfig { client_id, callback_port, auth_server_metadata_url: url, xaa }))
}

/// A remote server reached over SSE or HTTP.
fn parse_mcp_remote_server_config(o: &Vec<(String, JsonValue)>, ctx: &str) -> (r: Result<
    McpRemoteServerConfig,
    ConfigError,
>)
    ensures
        remote_matches(jmembers(o@), ctx@, r),
        r is Err ==> r matches Err(ConfigError::Parse(_)),
{
    let url = match expect_string(o, "url", ctx) {
        Ok(x) => x,
        Err(e) => return Err(e),
    };
    let headers = match optional_string_map(o, "headers", ctx) {
        Ok(x) => x,
        Err(e) => return Err(e),
    };
    let headers_helper = match optional_string(o, "headersHelper", ctx) {
        Ok(x) => x,
        Err(e) => return Err(e),
    };
    let oa = parse_optional_mcp_oauth_config(o, ctx);
    let oauth = match oa {
        Ok(x) => x,
        Err(ConfigError::Parse(m)) => {
            return Err(ConfigError::Parse(m));
        },
        Err(e) => return Err(e),
    };
    let headers = match headers {
        Some(h) => h,
        None => BTreeMap::new(),
    };
    Ok(McpRemoteServerConfig { url, headers, headers_helper, oauth })
}

/// The configuration of the MCP server `server_name`, read from `value`.
pub fn parse_mcp_server_config(server_name: &str, value: &JsonValue, context: &str) -> (r: Result<
    McpServerConfig,
    ConfigError,
>)
    ensures
        mcp_server_config_matches(server_name@, value@, context@, r),
        r is Err ==> r matches Err(ConfigError::Parse(_)),
{
    let o = match expect_object(value, context) {
        Ok(o) => o,
        Err(e) => return Err(e),
    };
    let t = match optional_string(o, "type", context) {
        Ok(Some(t)) => t,
        Ok(None) => text_of("stdio"),
        Err(e) => return Err(e),
    };
    proof {
        reveal_strlit("stdio");
        reveal_strlit("sse");
        reveal_strlit("http");
        reveal_strlit("ws");
        reveal_strlit("sdk");
        reveal_strlit("claudeai-proxy");
    }
    if t == text_of("stdio") {
        let command = match expect_string(o, "command", context) {
            Ok(x) => x,
            Err(e) => return Err(e),
        };
        let args = match optional_string_array(o, "args", context) {
            Ok(Some(a)) => a,
            Ok(None) => {
                let v: Vec<String> = Vec::new();
                assert(views(v@) =~= Seq::<Seq<char>>::empty());
                v
            },
            Err(e) => return Err(e),
        };
        let env = match optional_string_map(o, "env", context) {
            Ok(Some(m)) => m,
            Ok(None) => BTreeMap::new(),
            Err(e) => return Err(e),
        };
        Ok(McpServerConfig::Stdio(McpStdioServerConfig { command, args, env }))
    } else if t == text_of("sse") || t == text_of("http") {
        let is_sse = t == text_of("sse");
        let rr = parse_mcp_remote_server_config(o, context);
        match rr {
            Ok(c) => {
                if is_sse {
                    Ok(McpServerConfig::Sse(c))
                } else {
                    Ok(McpServerConfig::Http(c))
                }
            },
            Err(ConfigError::Parse(m)) => Err(ConfigError::Parse(m)),
            Err(e) => Err(e),
        }
    } else if t == text_of("ws") {
        let url = match expect_string(o, "url", context) {
            Ok(x) => x,
            Err(e) => return Err(e),
        };
        let headers = match optional_string_map(o, "headers", context) {
            Ok(Some(m)) => m,
            Ok(None) => BTreeMap::new(),
            Err(e) => return Err(e),
        };
        let headers_helper = match optional_string(o, "headersHelper", context) {
            Ok(x) => x,
            Err(e) => return Err(e),
        };
        Ok(McpServerConfig::Ws(McpWebSocketServerConfig { url, headers, headers_helper }))
    } else if t == text_of("sdk") {
        match expect_string(o, "name", context) {
            Ok(name) => Ok(McpServerConfig::Sdk(McpSdkServerConfig { name })),
            Err(e) => Err(e),
        }
    } else if t == text_of("claudeai-proxy") {
        let url = match expect_string(o, "url", context) {
            Ok(x) => x,
            Err(e) => return Err(e),
        };
        let id = match expect_string(o, "id", context) {
            Ok(x) => x,
            Err(e) => return Err(e),
        };
        Ok(McpServerConfig::ClaudeAiProxy(McpClaudeAiProxyServerConfig { url, id }))
    } else {
        let mut v = chars_of(context);
        push_str(&mut v, ": unsupported MCP server type for ");
        push_str(&mut v, server_name);
        push_str(&mut v, ": ");
        push_str(&mut v, t.as_str());
        Err(ConfigError::Parse(string_of(&v)))
    }
}

// ---------------------------------------------------------------------------
// Runtime OAuth and model
// ---------------------------------------------------------------------------

/// `r` is the OAuth block read from the merged settings `root`.
pub open spec fn oauth_matches(
    root: Seq<(Seq<char>, JView)>,
    ctx: Seq<char>,
    r: Result<Option<OAuthConfig>, ConfigError>,
) -> bool {
    match field(root, "oauth"@) {
        None => r matches Ok(None),
        Some(JView::Object(a)) => match string_field(a, "clientId"@, ctx) {
            Err(e) => is_parse_error(r, e),
            Ok(client_id) => match string_field(a, "authorizeUrl"@, ctx) {
                Err(e) => is_parse_error(r, e),
                Ok(authorize_url) => match string_field(a, "tokenUrl"@, ctx) {
                    Err(e) => is_parse_error(r, e),
                    Ok(token_url) => match opt_u16_field(a, "callbackPort"@, ctx) {
                        Err(e) => is_parse_error(r, e),
                        Ok(callback_port) => match opt_string_field(a, "manualRedirectUrl"@, ctx) {
                            Err(e) => is_parse_error(r, e),
                            Ok(manual) => match opt_string_array_field(a, "scopes"@, ctx) {
                                Err(e) => is_parse_error(r, e),
                                Ok(scopes) => r matches Ok(Some(c)) && c.client_id@ == client_id
                                    && c.authorize_url@ == authorize_url && c.token_url@
                                    == token_url && c.callback_port == callback_port && opt_view(
                                    c.manual_redirect_url,
                                ) == manual && views(c.scopes@) == match scopes {
                                    Some(x) => x,
                                    None => seq![],
                                },
                            },
                        },
                    },
                },
            },
        },
        Some(_) => is_parse_error(r, object_error(ctx)),
    }
}

/// The OAuth block of the merged settings, if any.
pub fn parse_optional_oauth_config(root: &Vec<(String, JsonValue)>, context: &str) -> (r: Result<
    Option<OAuthConfig>,
    ConfigError,
>)
    ensures
        oauth_matches(jmembers(root@), context@, r),
        r is Err ==> r matches Err(ConfigError::Parse(_)),
{
    let value = match member(root, "oauth") {
        None => return Ok(None),
        Some(v) => v,
    };
    let a = match expect_object(value, context) {
        Ok(a) => a,
        Err(e) => return Err(e),
    };
    let client_id = match expect_string(a, "clientId", context) {
        Ok(x) => x,
        Err(e) => return Err(e),
    };
    let authorize_url = match expect_string(a, "authorizeUrl", context) {
        Ok(x) => x,
        Err(e) => return Err(e),
    };
    let token_url = match expect_string(a, "tokenUrl", context) {
        Ok(x) => x,
        Err(e) => return Err(e),
    };
    let callback_port = match optional_u16(a, "callbackPort", context) {
        Ok(x) => x,
        Err(e) => return Err(e),
    };
    let manual_redirect_url = match optional_string(a, "manualRedirectUrl", context) {
        Ok(x) => x,
        Err(e) => return Err(e),
    };
    let scopes = match optional_string_array(a, "scopes", context) {
        Ok(Some(x)) => x,
        Ok(None) => {
            let v: Vec<String> = Vec::new();
            assert(views(v@) =~= Seq::<Seq<char>>::empty());
            v
        },
        Err(e) => return Err(e),
    };
    Ok(
        Some(
            OAuthConfig {
                client_id,
                authorize_url,
                token_url,
                callback_port,
                manual_redirect_url,
                scopes,
            },
        ),
    )
}

/// The model the merged settings name, when it is a string.
pub open spec fn model_of(root: Seq<(Seq<char>, JView)>) -> Option<Seq<char>> {
    match field(root, "model"@) {
        Some(JView::Str(m)) => Some(m),
        _ => None,
    }
}

/// The model the merged settings name, when it is a string.
pub fn parse_optional_model(root: &Vec<(String, JsonValue)>) -> (r: Option<String>)
    ensures
        opt_view(r) == model_of(jmembers(root@)),
{
    match member(root, "model") {
        Some(JsonValue::String(m)) => Some(m.clone()),
        _ => None,
    }
}

/// An OAuth block of a remote server does not both read and fail.
pub proof fn lemma_mcp_oauth_exclusive(
    o: Seq<(Seq<char>, JView)>,
    ctx: Seq<char>,
    a: Option<McpOAuthConfig>,
    x: ConfigError,
)
    requires
        mcp_oauth_matches(o, ctx, Ok(a)),
    ensures
        !mcp_oauth_matches(o, ctx, Err(x)),
{
}

/// A remote server does not both read and fail.
pub proof fn lemma_remote_exclusive(
    o: Seq<(Seq<char>, JView)>,
    ctx: Seq<char>,
    c: McpRemoteServerConfig,
    x: ConfigError,
)
    requires
        remote_matches(o, ctx, Ok(c)),
    ensures
        !remote_matches(o, ctx, Err(x)),
{
    if remote_matches(o, ctx, Err(x)) {
        if string_field(o, "url"@, ctx) is Ok && opt_string_map_error(o, "headers"@, ctx) is None
            && opt_string_field(o, "headersHelper"@, ctx) is Ok {
            let oa1 = choose|oa: Result<Option<McpOAuthConfig>, ConfigError>|
                #[trigger] mcp_oauth_matches(o, ctx, oa) && match oa {
                    Err(ConfigError::Parse(m)) => is_parse_error(
                        Ok::<McpRemoteServerConfig, ConfigError>(c),
                        m@,
                    ),
                    Err(_) => false,
                    Ok(oauth) => true,
                };
            let oa2 = choose|oa: Result<Option<McpOAuthConfig>, ConfigError>|
                #[trigger] mcp_oauth_matches(o, ctx, oa) && match oa {
                    Err(ConfigError::Parse(m)) => is_parse_error(
                        Err::<McpRemoteServerConfig, ConfigError>(x),
                        m@,
                    ),
                    Err(_) => false,
                    Ok(oauth) => false,
                };
            lemma_mcp_oauth_exclusive(o, ctx, oa1->Ok_0, oa2->Err_0);
        }
    }
}

/// A server definition does not both read and fail.
pub proof fn lemma_server_exclusive(
    name: Seq<char>,
    j: JView,
    ctx: Seq<char>,
    c: McpServerConfig,
    x: ConfigError,
)
    requires
        mcp_server_config_matches(name, j, ctx, Ok(c)),
    ensures
        !mcp_server_config_matches(name, j, ctx, Err(x)),
{
    if mcp_server_config_matches(name, j, ctx, Err(x)) {
        if let JView::Object(o) = j {
            if let Ok(t) = server_type(o, ctx) {
                if t != "stdio"@ && (t == "sse"@ || t == "http"@) {
                    let r1 = choose|rr: Result<McpRemoteServerConfig, ConfigError>|
                        #[trigger] remote_matches(o, ctx, rr) && match rr {
                            Err(ConfigError::Parse(m)) => is_parse_error(
                                Ok::<McpServerConfig, ConfigError>(c),
                                m@,
                            ),
                            Err(_) => false,
                            Ok(cc) => if t == "sse"@ {
                                Ok::<McpServerConfig, ConfigError>(c) == Ok::<
                                    McpServerConfig,
                                    ConfigError,
                                >(McpServerConfig::Sse(cc))
                            } else {
                                Ok::<McpServerConfig, ConfigError>(c) == Ok::<
                                    McpServerConfig,
                                    ConfigError,
                                >(McpServerConfig::Http(cc))
                            },
                        };
                    let r2 = choose|rr: Result<McpRemoteServerConfig, ConfigError>|
                        #[trigger] remote_matches(o, ctx, rr) && match rr {
                            Err(ConfigError::Parse(m)) => is_parse_error(
                                Err::<McpServerConfig, ConfigError>(x),
                                m@,
                            ),
                            Err(_) => false,
                            Ok(cc) => if t == "sse"@ {
                                Err::<McpServerConfig, ConfigError>(x) == Ok::<
                                    McpServerConfig,
                                    ConfigError,
                                >(McpServerConfig::Sse(cc))
                            } else {
                                Err::<McpServerConfig, ConfigError>(x) == Ok::<
                                    McpServerConfig,
                                    ConfigError,
                                >(McpServerConfig::Http(cc))
                            },
                        };
                    lemma_remote_exclusive(o, ctx, r1->Ok_0, r2->Err_0);
                }
            }
        }
    }
}

} // verus!
