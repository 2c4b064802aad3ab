//! A session as a JSON value and back: the stored format of a conversation.
use vstd::prelude::*;

use crate::message::{
    blocks_view, children_view, msgs_view, BlockView, ChildSession, ChildSessionView, ContentBlock,
    ConversationMessage, MessageRole,
    MessageView, Session, SessionError, SessionView, TokenUsage,
};
use crate::config_ops::io_error_text;
use crate::script::parser::{json_quote, json_quoted};
use crate::text::{chars_of, dec, join, push_dec, push_str, string_of};

verus! {

/// A JSON value. Object members are kept in the order they were given; the
/// values this module writes list them by ascending key.
#[derive(Debug, PartialEq, Eq)]
pub enum JsonValue {
    Null,
    Bool(bool),
    Number(i64),
    String(String),
    Array(Vec<JsonValue>),
    Object(Vec<(String, JsonValue)>),
}

/// A JSON value as values.
pub enum JView {
    Null,
    Bool(bool),
    Number(int),
    Str(Seq<char>),
    Array(Seq<JView>),
    Object(Seq<(Seq<char>, JView)>),
}

/// The value of a JSON value.
pub open spec fn jview(j: JsonValue) -> JView
    decreases j,
{
    match j {
        JsonValue::Null => JView::Null,
        JsonValue::Bool(b) => JView::Bool(b),
        JsonValue::Number(n) => JView::Number(n as int),
        JsonValue::String(s) => JView::Str(s@),
        JsonValue::Array(v) => JView::Array(
            Seq::new(v@.len(), |i: int| if 0 <= i < v@.len() { jview(v@[i]) } else { JView::Null }),
        ),
        JsonValue::Object(v) => JView::Object(
            Seq::new(
                v@.len(),
                |i: int|
                    if 0 <= i < v@.len() {
                        (v@[i].0@, jview(v@[i].1))
                    } else {
                        (seq![], JView::Null)
                    },
            ),
        ),
    }
}

impl View for JsonValue {
    type V = JView;

    open spec fn view(&self) -> JView {
        jview(*self)
    }
}

// ---------------------------------------------------------------------------
// Reading values
// ---------------------------------------------------------------------------

/// The value of the first member named `key` at or after position `i`.
pub open spec fn field_from(obj: Seq<(Seq<char>, JView)>, key: Seq<char>, i: int) -> Option<JView>
    decreases obj.len() - i,
{
    if i < 0 || i >= obj.len() {
        None
    } else if obj[i].0 == key {
        Some(obj[i].1)
    } else {
        field_from(obj, key, i + 1)
    }
}

/// The value of the first member named `key`.
pub open spec fn field(obj: Seq<(Seq<char>, JView)>, key: Seq<char>) -> Option<JView> {
    field_from(obj, key, 0)
}

/// The members of an object.
pub open spec fn as_object(j: JView) -> Option<Seq<(Seq<char>, JView)>> {
    match j {
        JView::Object(o) => Some(o),
        _ => None,
    }
}

/// A member that is a string.
pub open spec fn str_field(o: Seq<(Seq<char>, JView)>, key: Seq<char>) -> Option<Seq<char>> {
    match field(o, key) {
        Some(JView::Str(s)) => Some(s),
        _ => None,
    }
}

/// A member that is an array.
pub open spec fn array_field(o: Seq<(Seq<char>, JView)>, key: Seq<char>) -> Option<Seq<JView>> {
    match field(o, key) {
        Some(JView::Array(a)) => Some(a),
        _ => None,
    }
}

/// A required string member, or the error naming it.
pub open spec fn required_string(o: Seq<(Seq<char>, JView)>, key: Seq<char>) -> Result<
    Seq<char>,
    Seq<char>,
> {
    match str_field(o, key) {
        Some(s) => Ok(s),
        None => Err("missing "@ + key),
    }
}

/// A required member that is a number fitting a `u32`, or the error.
pub open spec fn required_u32(o: Seq<(Seq<char>, JView)>, key: Seq<char>) -> Result<u32, Seq<char>> {
    match field(o, key) {
        Some(JView::Number(n)) => if 0 <= n <= u32::MAX {
            Ok(n as u32)
        } else {
            Err(key + " out of range"@)
        },
        _ => Err("missing "@ + key),
    }
}

/// The token usage an object holds.
pub open spec fn decode_usage(j: JView) -> Result<TokenUsage, Seq<char>> {
    match as_object(j) {
        None => Err("usage must be an object"@),
        Some(o) => match required_u32(o, "input_tokens"@) {
            Err(e) => Err(e),
            Ok(input) => match required_u32(o, "output_tokens"@) {
                Err(e) => Err(e),
                Ok(output) => match required_u32(o, "cache_creation_input_tokens"@) {
                    Err(e) => Err(e),
                    Ok(creation) => match required_u32(o, "cache_read_input_tokens"@) {
                        Err(e) => Err(e),
                        Ok(read) => Ok(
                            TokenUsage {
                                input_tokens: input,
                                output_tokens: output,
                                cache_creation_input_tokens: creation,
                                cache_read_input_tokens: read,
                            },
                        ),
                    },
                },
            },
        },
    }
}

/// The content block an object holds.
pub open spec fn decode_block(j: JView) -> Result<BlockView, Seq<char>> {
    match as_object(j) {
        None => Err("block must be an object"@),
        Some(o) => match str_field(o, "type"@) {
            None => Err("missing block type"@),
            Some(t) => if t == "text"@ {
                match required_string(o, "text"@) {
                    Err(e) => Err(e),
                    Ok(text) => Ok(BlockView::Text { text }),
                }
            } else if t == "tool_use"@ {
                match required_string(o, "id"@) {
                    Err(e) => Err(e),
                    Ok(id) => match required_string(o, "name"@) {
                        Err(e) => Err(e),
                        Ok(name) => match required_string(o, "input"@) {
                            Err(e) => Err(e),
                            Ok(input) => Ok(BlockView::ToolUse { id, name, input }),
                        },
                    },
                }
            } else if t == "tool_result"@ {
                match required_string(o, "tool_use_id"@) {
                    Err(e) => Err(e),
                    Ok(tool_use_id) => match required_string(o, "tool_name"@) {
                        Err(e) => Err(e),
                        Ok(tool_name) => match required_string(o, "output"@) {
                            Err(e) => Err(e),
                            Ok(output) => match field(o, "is_error"@) {
                                Some(JView::Bool(is_error)) => Ok(
                                    BlockView::ToolResult { tool_use_id, tool_name, output, is_error },
                                ),
                                _ => Err("missing is_error"@),
                            },
                        },
                    },
                }
            } else if t == "tool_result_image"@ {
                match required_string(o, "tool_use_id"@) {
                    Err(e) => Err(e),
                    Ok(tool_use_id) => match required_string(o, "tool_name"@) {
                        Err(e) => Err(e),
                        Ok(tool_name) => match required_string(o, "caption"@) {
                            Err(e) => Err(e),
                            Ok(caption) => match required_string(o, "base64_data"@) {
                                Err(e) => Err(e),
                                Ok(base64_data) => match field(o, "is_error"@) {
                                    Some(JView::Bool(is_error)) => Ok(
                                        BlockView::ToolResultImage {
                                            tool_use_id,
                                            tool_name,
                                            caption,
                                            base64_data,
                                            is_error,
                                        },
                                    ),
                                    _ => Err("missing is_error"@),
                                },
                            },
                        },
                    },
                }
            } else if t == "reasoning"@ {
                match required_string(o, "data"@) {
                    Err(e) => Err(e),
                    Ok(data) => Ok(BlockView::Reasoning { data }),
                }
            } else {
                Err("unsupported block type: "@ + t)
            },
        },
    }
}

/// The blocks of an array, or the first error.
pub open spec fn decode_blocks(items: Seq<JView>) -> Result<Seq<BlockView>, Seq<char>>
    decreases items.len(),
{
    if items.len() == 0 {
        Ok(seq![])
    } else {
        match decode_blocks(items.drop_last()) {
            Err(e) => Err(e),
            Ok(bs) => match decode_block(items.last()) {
                Err(e) => Err(e),
                Ok(b) => Ok(bs.push(b)),
            },
        }
    }
}

/// The role a name gives.
pub open spec fn role_of_name(r: Seq<char>) -> Option<MessageRole> {
    if r == "system"@ {
        Some(MessageRole::System)
    } else if r == "user"@ {
        Some(MessageRole::User)
    } else if r == "assistant"@ {
        Some(MessageRole::Assistant)
    } else if r == "tool"@ {
        Some(MessageRole::Tool)
    } else {
        None
    }
}

/// The message an object holds.
pub open spec fn decode_message(j: JView) -> Result<MessageView, Seq<char>> {
    match as_object(j) {
        None => Err("message must be an object"@),
        Some(o) => match str_field(o, "role"@) {
            None => Err("missing role"@),
            Some(r) => match role_of_name(r) {
                None => Err("unsupported message role: "@ + r),
                Some(role) => match array_field(o, "blocks"@) {
                    None => Err("missing blocks"@),
                    Some(items) => match decode_blocks(items) {
                        Err(e) => Err(e),
                        Ok(blocks) => match field(o, "usage"@) {
                            None => Ok(MessageView { role, blocks, usage: None }),
                            Some(u) => match decode_usage(u) {
                                Err(e) => Err(e),
                                Ok(usage) => Ok(MessageView { role, blocks, usage: Some(usage) }),
                            },
                        },
                    },
                },
            },
        },
    }
}

/// The messages of an array, or the first error.
pub open spec fn decode_messages(items: Seq<JView>) -> Result<Seq<MessageView>, Seq<char>>
    decreases items.len(),
{
    if items.len() == 0 {
        Ok(seq![])
    } else {
        match decode_messages(items.drop_last()) {
            Err(e) => Err(e),
            Ok(ms) => match decode_message(items.last()) {
                Err(e) => Err(e),
                Ok(m) => Ok(ms.push(m)),
            },
        }
    }
}

/// The sub-agent conversation an object holds.
pub open spec fn decode_child(j: JView) -> Result<ChildSessionView, Seq<char>> {
    match as_object(j) {
        None => Err("child_session must be an object"@),
        Some(o) => match required_string(o, "id"@) {
            Err(e) => Err(e),
            Ok(id) => match required_string(o, "goal"@) {
                Err(e) => Err(e),
                Ok(goal) => match array_field(o, "messages"@) {
                    None => Err("missing messages in child_session"@),
                    Some(items) => match decode_messages(items) {
                        Err(e) => Err(e),
                        Ok(messages) => Ok(ChildSessionView { id, goal, messages }),
                    },
                },
            },
        },
    }
}

/// The sub-agent conversations of an array, or the first error.
pub open spec fn decode_children(items: Seq<JView>) -> Result<Seq<ChildSessionView>, Seq<char>>
    decreases items.len(),
{
    if items.len() == 0 {
        Ok(seq![])
    } else {
        match decode_children(items.drop_last()) {
            Err(e) => Err(e),
            Ok(cs) => match decode_child(items.last()) {
                Err(e) => Err(e),
                Ok(c) => Ok(cs.push(c)),
            },
        }
    }
}

/// The session a JSON value holds, or why it holds none: it must be an
/// object with a version of 1 or 2 and a list of messages; a model and a
/// title are taken when they are strings, and sub-agent conversations when
/// they are a list.
pub open spec fn decode_session(j: JView) -> Result<SessionView, Seq<char>> {
    match as_object(j) {
        None => Err("session must be an object"@),
        Some(o) => match field(o, "version"@) {
            Some(JView::Number(n)) => if !(0 <= n <= u32::MAX) {
                Err("version out of range"@)
            } else if n != 1 && n != 2 {
                Err("unsupported session version "@ + dec(n as nat))
            } else {
                match array_field(o, "messages"@) {
                    None => Err("missing messages"@),
                    Some(items) => match decode_messages(items) {
                        Err(e) => Err(e),
                        Ok(messages) => {
                            let children = match array_field(o, "child_sessions"@) {
                                None => Ok(seq![]),
                                Some(cs) => decode_children(cs),
                            };
                            match children {
                                Err(e) => Err(e),
                                Ok(child_sessions) => Ok(
                                    SessionView {
                                        version: n as u32,
                                        model: str_field(o, "model"@),
                                        title: str_field(o, "title"@),
                                        messages,
                                        child_sessions,
                                    },
                                ),
                            }
                        },
                    },
                }
            },
            _ => Err("missing version"@),
        },
    }
}

// ---------------------------------------------------------------------------
// Writing values
// ---------------------------------------------------------------------------

/// The stored name of a role.
pub open spec fn role_name(r: MessageRole) -> Seq<char> {
    match r {
        MessageRole::System => "system"@,
        MessageRole::User => "user"@,
        MessageRole::Assistant => "assistant"@,
        MessageRole::Tool => "tool"@,
    }
}

/// A token usage as an object.
pub open spec fn usage_json(u: TokenUsage) -> JView {
    JView::Object(
        seq![
            ("cache_creation_input_tokens"@, JView::Number(u.cache_creation_input_tokens as int)),
            ("cache_read_input_tokens"@, JView::Number(u.cache_read_input_tokens as int)),
            ("input_tokens"@, JView::Number(u.input_tokens as int)),
            ("output_tokens"@, JView::Number(u.output_tokens as int)),
        ],
    )
}

/// A content block as an object, its kind under `type`.
pub open spec fn block_json(b: BlockView) -> JView {
    match b {
        BlockView::Text { text } => JView::Object(
            seq![("text"@, JView::Str(text)), ("type"@, JView::Str("text"@))],
        ),
        BlockView::ToolUse { id, name, input } => JView::Object(
            seq![
                ("id"@, JView::Str(id)),
                ("input"@, JView::Str(input)),
                ("name"@, JView::Str(name)),
                ("type"@, JView::Str("tool_use"@)),
            ],
        ),
        BlockView::ToolResult { tool_use_id, tool_name, output, is_error } => JView::Object(
            seq![
                ("is_error"@, JView::Bool(is_error)),
                ("output"@, JView::Str(output)),
                ("tool_name"@, JView::Str(tool_name)),
                ("tool_use_id"@, JView::Str(tool_use_id)),
                ("type"@, JView::Str("tool_result"@)),
            ],
        ),
        BlockView::ToolResultImage { tool_use_id, tool_name, caption, base64_data, is_error } =>
            JView::Object(
            seq![
                ("base64_data"@, JView::Str(base64_data)),
                ("caption"@, JView::Str(caption)),
                ("is_error"@, JView::Bool(is_error)),
                ("tool_name"@, JView::Str(tool_name)),
                ("tool_use_id"@, JView::Str(tool_use_id)),
                ("type"@, JView::Str("tool_result_image"@)),
            ],
        ),
        BlockView::Reasoning { data } => JView::Object(
            seq![("data"@, JView::Str(data)), ("type"@, JView::Str("reasoning"@))],
        ),
    }
}

/// A message as an object: its blocks, its role and, when recorded, its usage.
pub open spec fn message_json(m: MessageView) -> JView {
    let head = seq![
        ("blocks"@, JView::Array(m.blocks.map_values(|b: BlockView| block_json(b)))),
        ("role"@, JView::Str(role_name(m.role))),
    ];
    JView::Object(
        match m.usage {
            Some(u) => head.push(("usage"@, usage_json(u))),
            None => head,
        },
    )
}

/// The messages as an array.
pub open spec fn messages_json(ms: Seq<MessageView>) -> JView {
    JView::Array(ms.map_values(|m: MessageView| message_json(m)))
}

/// A sub-agent conversation as an object.
pub open spec fn child_json(c: ChildSessionView) -> JView {
    JView::Object(
        seq![
            ("goal"@, JView::Str(c.goal)),
            ("id"@, JView::Str(c.id)),
            ("messages"@, messages_json(c.messages)),
        ],
    )
}

/// A session as an object: its sub-agent conversations, messages, model and
/// title when set, and version.
pub open spec fn session_json(s: SessionView) -> JView {
    let a = seq![
        ("child_sessions"@, JView::Array(s.child_sessions.map_values(|c: ChildSessionView| child_json(c)))),
        ("messages"@, messages_json(s.messages)),
    ];
    let b = match s.model {
        Some(m) => a.push(("model"@, JView::Str(m))),
        None => a,
    };
    let c = match s.title {
        Some(t) => b.push(("title"@, JView::Str(t))),
        None => b,
    };
    JView::Object(c.push(("version"@, JView::Number(s.version as int))))
}

// ---------------------------------------------------------------------------
// Reading back what was written
// ---------------------------------------------------------------------------

/// A member is found at the first position that carries its name.
proof fn lemma_field_at(obj: Seq<(Seq<char>, JView)>, key: Seq<char>, start: int, i: int)
    requires
        0 <= start <= i < obj.len(),
        obj[i].0 == key,
        forall|j: int| start <= j < i ==> obj[j].0 != key,
    ensures
        field_from(obj, key, start) == Some(obj[i].1),
    decreases i - start,
{
    if start < i {
        lemma_field_at(obj, key, start + 1, i);
    }
}

/// A name that no member carries is not found.
proof fn lemma_field_absent(obj: Seq<(Seq<char>, JView)>, key: Seq<char>, start: int)
    requires
        0 <= start,
        forall|j: int| start <= j < obj.len() ==> obj[j].0 != key,
    ensures
        field_from(obj, key, start) == None::<JView>,
    decreases obj.len() - start,
{
    if start < obj.len() {
        lemma_field_absent(obj, key, start + 1);
    }
}

proof fn lemma_usage_round_trip(u: TokenUsage)
    ensures
        decode_usage(usage_json(u)) == Ok::<TokenUsage, Seq<char>>(u),
{
    reveal_strlit("cache_creation_input_tokens");
    reveal_strlit("cache_read_input_tokens");
    reveal_strlit("input_tokens");
    reveal_strlit("output_tokens");
    let o = as_object(usage_json(u)).unwrap();
    assert(o[0].0 == "cache_creation_input_tokens"@ && o[1].0 == "cache_read_input_tokens"@);
    assert(o[2].0 == "input_tokens"@ && o[3].0 == "output_tokens"@);
    lemma_field_at(o, "input_tokens"@, 0, 2);
    lemma_field_at(o, "output_tokens"@, 0, 3);
    lemma_field_at(o, "cache_creation_input_tokens"@, 0, 0);
    lemma_field_at(o, "cache_read_input_tokens"@, 0, 1);
}

proof fn lemma_text_block_round_trip(text: Seq<char>)
    ensures
        decode_block(block_json(BlockView::Text { text })) == Ok::<BlockView, Seq<char>>(
            BlockView::Text { text },
        ),
{
    reveal_strlit("text");
    reveal_strlit("type");
    let o = as_object(block_json(BlockView::Text { text })).unwrap();
    assert("text"@[2] != "type"@[2]);
    assert(o[0].0 == "text"@ && o[1].0 == "type"@);
    lemma_field_at(o, "type"@, 0, 1);
    lemma_field_at(o, "text"@, 0, 0);
}

proof fn lemma_tool_use_block_round_trip(id: Seq<char>, name: Seq<char>, input: Seq<char>)
    ensures
        decode_block(block_json(BlockView::ToolUse { id, name, input })) == Ok::<
            BlockView,
            Seq<char>,
        >(BlockView::ToolUse { id, name, input }),
{
    reveal_strlit("text");
    reveal_strlit("type");
    reveal_strlit("tool_use");
    reveal_strlit("id");
    reveal_strlit("input");
    reveal_strlit("name");
    let o = as_object(block_json(BlockView::ToolUse { id, name, input })).unwrap();
    assert("name"@[0] != "type"@[0]);
    assert(o[0].0 == "id"@ && o[1].0 == "input"@ && o[2].0 == "name"@ && o[3].0 == "type"@);
    lemma_field_at(o, "type"@, 0, 3);
    lemma_field_at(o, "id"@, 0, 0);
    lemma_field_at(o, "input"@, 0, 1);
    lemma_field_at(o, "name"@, 0, 2);
    assert("tool_use"@.len() == 8 && "text"@.len() == 4);
}

proof fn lemma_tool_result_block_round_trip(
    tool_use_id: Seq<char>,
    tool_name: Seq<char>,
    output: Seq<char>,
    is_error: bool,
)
    ensures
        decode_block(block_json(BlockView::ToolResult { tool_use_id, tool_name, output, is_error }))
            == Ok::<BlockView, Seq<char>>(
            BlockView::ToolResult { tool_use_id, tool_name, output, is_error },
        ),
{
    reveal_strlit("text");
    reveal_strlit("type");
    reveal_strlit("tool_use");
    reveal_strlit("tool_result");
    reveal_strlit("is_error");
    reveal_strlit("output");
    reveal_strlit("tool_name");
    reveal_strlit("tool_use_id");
    let o = as_object(
        block_json(BlockView::ToolResult { tool_use_id, tool_name, output, is_error }),
    ).unwrap();
    assert(o[0].0 == "is_error"@ && o[1].0 == "output"@ && o[2].0 == "tool_name"@);
    assert(o[3].0 == "tool_use_id"@ && o[4].0 == "type"@);
    lemma_field_at(o, "type"@, 0, 4);
    lemma_field_at(o, "is_error"@, 0, 0);
    lemma_field_at(o, "output"@, 0, 1);
    lemma_field_at(o, "tool_name"@, 0, 2);
    lemma_field_at(o, "tool_use_id"@, 0, 3);
    assert("tool_result"@.len() == 11 && "tool_use"@.len() == 8 && "text"@.len() == 4);
}

proof fn lemma_image_block_round_trip(
    tool_use_id: Seq<char>,
    tool_name: Seq<char>,
    caption: Seq<char>,
    base64_data: Seq<char>,
    is_error: bool,
)
    ensures
        decode_block(
            block_json(
                BlockView::ToolResultImage { tool_use_id, tool_name, caption, base64_data, is_error },
            ),
        ) == Ok::<BlockView, Seq<char>>(
            BlockView::ToolResultImage { tool_use_id, tool_name, caption, base64_data, is_error },
        ),
{
    reveal_strlit("text");
    reveal_strlit("type");
    reveal_strlit("tool_use");
    reveal_strlit("tool_result");
    reveal_strlit("tool_result_image");
    reveal_strlit("base64_data");
    reveal_strlit("caption");
    reveal_strlit("is_error");
    reveal_strlit("tool_name");
    reveal_strlit("tool_use_id");
    let o = as_object(
        block_json(
            BlockView::ToolResultImage { tool_use_id, tool_name, caption, base64_data, is_error },
        ),
    ).unwrap();
    assert("base64_data"@[0] != "tool_use_id"@[0]);
    assert(o[0].0 == "base64_data"@ && o[1].0 == "caption"@ && o[2].0 == "is_error"@);
    assert(o[3].0 == "tool_name"@ && o[4].0 == "tool_use_id"@ && o[5].0 == "type"@);
    lemma_field_at(o, "type"@, 0, 5);
    lemma_field_at(o, "base64_data"@, 0, 0);
    lemma_field_at(o, "caption"@, 0, 1);
    lemma_field_at(o, "is_error"@, 0, 2);
    lemma_field_at(o, "tool_name"@, 0, 3);
    lemma_field_at(o, "tool_use_id"@, 0, 4);
    assert("tool_result_image"@.len() == 17 && "tool_result"@.len() == 11);
    assert("tool_use"@.len() == 8 && "text"@.len() == 4);
}

proof fn lemma_reasoning_block_round_trip(data: Seq<char>)
    ensures
        decode_block(block_json(BlockView::Reasoning { data })) == Ok::<BlockView, Seq<char>>(
            BlockView::Reasoning { data },
        ),
{
    reveal_strlit("text");
    reveal_strlit("type");
    reveal_strlit("tool_use");
    reveal_strlit("tool_result");
    reveal_strlit("tool_result_image");
    reveal_strlit("reasoning");
    reveal_strlit("data");
    let o = as_object(block_json(BlockView::Reasoning { data })).unwrap();
    assert("data"@[0] != "type"@[0]);
    assert(o[0].0 == "data"@ && o[1].0 == "type"@);
    lemma_field_at(o, "type"@, 0, 1);
    lemma_field_at(o, "data"@, 0, 0);
    assert("reasoning"@.len() == 9 && "tool_result_image"@.len() == 17);
    assert("tool_result"@.len() == 11 && "tool_use"@.len() == 8 && "text"@.len() == 4);
}

proof fn lemma_block_round_trip(b: BlockView)
    ensures
        decode_block(block_json(b)) == Ok::<BlockView, Seq<char>>(b),
{
    match b {
        BlockView::Text { text } => lemma_text_block_round_trip(text),
        BlockView::ToolUse { id, name, input } => lemma_tool_use_block_round_trip(id, name, input),
        BlockView::ToolResult { tool_use_id, tool_name, output, is_error } =>
            lemma_tool_result_block_round_trip(tool_use_id, tool_name, output, is_error),
        BlockView::ToolResultImage { tool_use_id, tool_name, caption, base64_data, is_error } =>
            lemma_image_block_round_trip(tool_use_id, tool_name, caption, base64_data, is_error),
        BlockView::Reasoning { data } => lemma_reasoning_block_round_trip(data),
    }
}

proof fn lemma_blocks_round_trip(bs: Seq<BlockView>)
    ensures
        decode_blocks(bs.map_values(|b: BlockView| block_json(b))) == Ok::<Seq<BlockView>, Seq<char>>(bs),
    decreases bs.len(),
{
    let js = bs.map_values(|b: BlockView| block_json(b));
    if bs.len() > 0 {
        assert(js.drop_last() =~= bs.drop_last().map_values(|b: BlockView| block_json(b)));
        lemma_blocks_round_trip(bs.drop_last());
        assert(decode_blocks(js.drop_last()) == Ok::<Seq<BlockView>, Seq<char>>(bs.drop_last()));
        lemma_block_round_trip(bs.last());
        assert(js.last() == block_json(bs.last()));
        assert(bs.drop_last().push(bs.last()) =~= bs);
    } else {
        assert(bs =~= Seq::<BlockView>::empty());
    }
}

proof fn lemma_role_round_trip(r: MessageRole)
    ensures
        role_of_name(role_name(r)) == Some(r),
{
    reveal_strlit("system");
    reveal_strlit("user");
    reveal_strlit("assistant");
    reveal_strlit("tool");
    assert("system"@.len() == 6 && "user"@.len() == 4 && "assistant"@.len() == 9);
    assert("tool"@.len() == 4 && "tool"@[0] != "user"@[0]);
}

proof fn lemma_message_round_trip(m: MessageView)
    ensures
        decode_message(message_json(m)) == Ok::<MessageView, Seq<char>>(m),
{
    reveal_strlit("blocks");
    reveal_strlit("role");
    reveal_strlit("usage");
    assert("blocks"@.len() == 6 && "role"@.len() == 4 && "usage"@.len() == 5);
    let o = as_object(message_json(m)).unwrap();
    assert(o[0].0 == "blocks"@ && o[1].0 == "role"@);
    lemma_field_at(o, "blocks"@, 0, 0);
    lemma_field_at(o, "role"@, 0, 1);
    lemma_role_round_trip(m.role);
    lemma_blocks_round_trip(m.blocks);
    match m.usage {
        Some(u) => {
            assert(o[2].0 == "usage"@);
            lemma_field_at(o, "usage"@, 0, 2);
            lemma_usage_round_trip(u);
        },
        None => {
            lemma_field_absent(o, "usage"@, 0);
        },
    }
}

proof fn lemma_messages_round_trip(ms: Seq<MessageView>)
    ensures
        decode_messages(ms.map_values(|m: MessageView| message_json(m))) == Ok::<
            Seq<MessageView>,
            Seq<char>,
        >(ms),
    decreases ms.len(),
{
    let js = ms.map_values(|m: MessageView| message_json(m));
    if ms.len() > 0 {
        assert(js.drop_last() =~= ms.drop_last().map_values(|m: MessageView| message_json(m)));
        lemma_messages_round_trip(ms.drop_last());
        assert(decode_messages(js.drop_last()) == Ok::<Seq<MessageView>, Seq<char>>(ms.drop_last()));
        lemma_message_round_trip(ms.last());
        assert(js.last() == message_json(ms.last()));
        assert(ms.drop_last().push(ms.last()) =~= ms);
    } else {
        assert(ms =~= Seq::<MessageView>::empty());
    }
}

proof fn lemma_child_round_trip(c: ChildSessionView)
    ensures
        decode_child(child_json(c)) == Ok::<ChildSessionView, Seq<char>>(c),
{
    reveal_strlit("goal");
    reveal_strlit("id");
    reveal_strlit("messages");
    reveal_with_fuel(field_from, 4);
    lemma_messages_round_trip(c.messages);
}

proof fn lemma_children_round_trip(cs: Seq<ChildSessionView>)
    ensures
        decode_children(cs.map_values(|c: ChildSessionView| child_json(c))) == Ok::<
            Seq<ChildSessionView>,
            Seq<char>,
        >(cs),
    decreases cs.len(),
{
    let js = cs.map_values(|c: ChildSessionView| child_json(c));
    if cs.len() > 0 {
        assert(js.drop_last() =~= cs.drop_last().map_values(|c: ChildSessionView| child_json(c)));
        lemma_children_round_trip(cs.drop_last());
        assert(decode_children(js.drop_last()) == Ok::<Seq<ChildSessionView>, Seq<char>>(cs.drop_last()));
        lemma_child_round_trip(cs.last());
        assert(js.last() == child_json(cs.last()));
        assert(cs.drop_last().push(cs.last()) =~= cs);
    } else {
        assert(cs =~= Seq::<ChildSessionView>::empty());
    }
}

/// Reading a stored session gives it back: the JSON value a session of
/// version 1 or 2 is written as reads back as the same session.
pub proof fn lemma_session_round_trip(s: SessionView)
    requires
        s.version == 1 || s.version == 2,
    ensures
        decode_session(session_json(s)) == Ok::<SessionView, Seq<char>>(s),
{
    reveal_strlit("child_sessions");
    reveal_strlit("messages");
    reveal_strlit("model");
    reveal_strlit("title");
    reveal_strlit("version");
    assert("child_sessions"@.len() == 14 && "messages"@.len() == 8 && "version"@.len() == 7);
    assert("model"@.len() == 5 && "title"@.len() == 5 && "model"@[0] != "title"@[0]);
    let o = as_object(session_json(s)).unwrap();
    let n = (o.len() - 1) as int;
    assert(o[0].0 == "child_sessions"@ && o[1].0 == "messages"@ && o[n].0 == "version"@);
    lemma_field_at(o, "child_sessions"@, 0, 0);
    lemma_field_at(o, "messages"@, 0, 1);
    match (s.model, s.title) {
        (Some(_), Some(_)) => {
            assert(o[2].0 == "model"@ && o[3].0 == "title"@);
            lemma_field_at(o, "model"@, 0, 2);
            lemma_field_at(o, "title"@, 0, 3);
        },
        (Some(_), None) => {
            assert(o[2].0 == "model"@);
            lemma_field_at(o, "model"@, 0, 2);
            lemma_field_absent(o, "title"@, 0);
        },
        (None, Some(_)) => {
            assert(o[2].0 == "title"@);
            lemma_field_absent(o, "model"@, 0);
            lemma_field_at(o, "title"@, 0, 2);
        },
        (None, None) => {
            lemma_field_absent(o, "model"@, 0);
            lemma_field_absent(o, "title"@, 0);
        },
    }
    lemma_field_at(o, "version"@, 0, n);
    lemma_messages_round_trip(s.messages);
    lemma_children_round_trip(s.child_sessions);
}

// ---------------------------------------------------------------------------
// Executable reading and writing
// ---------------------------------------------------------------------------

/// The members of an object as values.
pub open spec fn jmembers(v: Seq<(String, JsonValue)>) -> Seq<(Seq<char>, JView)> {
    Seq::new(v.len(), |i: int| (v[i].0@, jview(v[i].1)))
}

/// The items of an array as values.
pub open spec fn jitems(v: Seq<JsonValue>) -> Seq<JView> {
    Seq::new(v.len(), |i: int| jview(v[i]))
}

/// An object's value lists its members, an array's its items.
pub proof fn lemma_compound_view(j: JsonValue)
    ensures
        j matches JsonValue::Object(v) ==> jview(j) == JView::Object(jmembers(v@)),
        j matches JsonValue::Array(v) ==> jview(j) == JView::Array(jitems(v@)),
{
    match j {
        JsonValue::Object(v) => {
            if let JView::Object(o) = jview(j) {
                assert(o =~= jmembers(v@));
            }
        },
        JsonValue::Array(v) => {
            if let JView::Array(a) = jview(j) {
                assert(a =~= jitems(v@));
            }
        },
        _ => {},
    }
}

/// A `String` holding the characters of a literal.
pub(crate) fn text_of(lit: &str) -> (r: String)
    ensures
        r@ == lit@,
{
    lit.to_owned()
}

/// `prefix` followed by `rest`.
pub(crate) fn joined(prefix: &str, rest: &str) -> (r: String)
    ensures
        r@ == prefix@ + rest@,
{
    let mut v = chars_of(prefix);
    push_str(&mut v, rest);
    string_of(&v)
}

/// The value of the first member named `key`.
pub(crate) fn member<'a>(members: &'a Vec<(String, JsonValue)>, key: &str) -> (r: Option<&'a JsonValue>)
    ensures
        match field(jmembers(members@), key@) {
            Some(v) => r matches Some(x) && x@ == v,
            None => r is None,
        },
{
    let k = text_of(key);
    let mut i: usize = 0;
    while i < members.len()
        invariant
            0 <= i <= members.len(),
            k@ == key@,
            forall|j: int| 0 <= j < i ==> #[trigger] members@[j].0@ != key@,
        decreases members.len() - i,
    {
        if members[i].0 == k {
            proof {
                assert forall|j: int| 0 <= j < i implies jmembers(members@)[j].0 != key@ by {
                    assert(members@[j].0@ != key@);
                }
                lemma_field_at(jmembers(members@), key@, 0, i as int);
            }
            return Some(&members[i].1);
        }
        i += 1;
    }
    proof {
        assert forall|j: int| 0 <= j < members@.len() implies jmembers(members@)[j].0 != key@ by {
            assert(members@[j].0@ != key@);
        }
        lemma_field_absent(jmembers(members@), key@, 0);
    }
    None
}

/// A member that is a string.
fn member_str(members: &Vec<(String, JsonValue)>, key: &str) -> (r: Option<String>)
    ensures
        match str_field(jmembers(members@), key@) {
            Some(s) => r matches Some(x) && x@ == s,
            None => r is None,
        },
{
    match member(members, key) {
        Some(JsonValue::String(s)) => Some(s.clone()),
        _ => None,
    }
}

/// A member that is an array.
fn member_array<'a>(members: &'a Vec<(String, JsonValue)>, key: &str) -> (r: Option<
    &'a Vec<JsonValue>,
>)
    ensures
        match array_field(jmembers(members@), key@) {
            Some(a) => r matches Some(x) && jitems(x@) == a,
            None => r is None,
        },
{
    match member(members, key) {
        Some(j) => {
            proof {
                lemma_compound_view(*j);
            }
            match j {
                JsonValue::Array(items) => Some(items),
                _ => None,
            }
        },
        None => None,
    }
}

/// A required string member.
fn read_string(members: &Vec<(String, JsonValue)>, key: &str) -> (r: Result<String, String>)
    ensures
        match required_string(jmembers(members@), key@) {
            Ok(s) => r matches Ok(x) && x@ == s,
            Err(e) => r matches Err(m) && m@ == e,
        },
{
    proof {
        reveal_strlit("missing ");
    }
    match member_str(members, key) {
        Some(s) => Ok(s),
        None => Err(joined("missing ", key)),
    }
}

/// A required member that is a number fitting a `u32`.
fn read_u32(members: &Vec<(String, JsonValue)>, key: &str) -> (r: Result<u32, String>)
    ensures
        match required_u32(jmembers(members@), key@) {
            Ok(n) => r == Ok::<u32, String>(n),
            Err(e) => r matches Err(m) && m@ == e,
        },
{
    match member(members, key) {
        Some(JsonValue::Number(n)) => {
            if 0 <= *n && *n <= 0xFFFF_FFFF {
                Ok(*n as u32)
            } else {
                let mut v = chars_of(key);
                push_str(&mut v, " out of range");
                Err(string_of(&v))
            }
        },
        _ => Err(joined("missing ", key)),
    }
}

/// The members of a value that must be an object.
fn object_members<'a>(value: &'a JsonValue, what: &str) -> (r: Result<
    &'a Vec<(String, JsonValue)>,
    String,
>)
    ensures
        match as_object(value@) {
            Some(o) => r matches Ok(m) && jmembers(m@) == o,
            None => r matches Err(e) && e@ == what@ + " must be an object"@,
        },
{
    proof {
        lemma_compound_view(*value);
    }
    match value {
        JsonValue::Object(members) => Ok(members),
        _ => {
            let mut v = chars_of(what);
            push_str(&mut v, " must be an object");
            Err(string_of(&v))
        },
    }
}

/// Reads a token usage.
fn usage_from_json(value: &JsonValue) -> (r: Result<TokenUsage, String>)
    ensures
        match decode_usage(value@) {
            Ok(u) => r == Ok::<TokenUsage, String>(u),
            Err(e) => r matches Err(m) && m@ == e,
        },
{
    proof {
        reveal_strlit("usage");
        reveal_strlit(" must be an object");
        reveal_strlit("usage must be an object");
        assert("usage"@ + " must be an object"@ =~= "usage must be an object"@);
    }
    let o = match object_members(value, "usage") {
        Ok(o) => o,
        Err(e) => return Err(e),
    };
    let input_tokens = match read_u32(o, "input_tokens") {
        Ok(n) => n,
        Err(e) => return Err(e),
    };
    let output_tokens = match read_u32(o, "output_tokens") {
        Ok(n) => n,
        Err(e) => return Err(e),
    };
    let cache_creation_input_tokens = match read_u32(o, "cache_creation_input_tokens") {
        Ok(n) => n,
        Err(e) => return Err(e),
    };
    let cache_read_input_tokens = match read_u32(o, "cache_read_input_tokens") {
        Ok(n) => n,
        Err(e) => return Err(e),
    };
    Ok(TokenUsage { input_tokens, output_tokens, cache_creation_input_tokens, cache_read_input_tokens })
}

/// Reads a content block.
fn content_block_from_json(value: &JsonValue) -> (r: Result<ContentBlock, String>)
    ensures
        match decode_block(value@) {
            Ok(b) => r matches Ok(x) && x@ == b,
            Err(e) => r matches Err(m) && m@ == e,
        },
{
    proof {
        reveal_strlit("block");
        reveal_strlit(" must be an object");
        reveal_strlit("block must be an object");
        assert("block"@ + " must be an object"@ =~= "block must be an object"@);
    }
    let o = match object_members(value, "block") {
        Ok(o) => o,
        Err(e) => return Err(e),
    };
    let t = match member_str(o, "type") {
        Some(t) => t,
        None => return Err(text_of("missing block type")),
    };
    if t == text_of("text") {
        match read_string(o, "text") {
            Ok(text) => Ok(ContentBlock::Text { text }),
            Err(e) => Err(e),
        }
    } else if t == text_of("tool_use") {
        let id = match read_string(o, "id") {
            Ok(s) => s,
            Err(e) => return Err(e),
        };
        let name = match read_string(o, "name") {
            Ok(s) => s,
            Err(e) => return Err(e),
        };
        let input = match read_string(o, "input") {
            Ok(s) => s,
            Err(e) => return Err(e),
        };
        Ok(ContentBlock::ToolUse { id, name, input })
    } else if t == text_of("tool_result") {
        let tool_use_id = match read_string(o, "tool_use_id") {
            Ok(s) => s,
            Err(e) => return Err(e),
        };
        let tool_name = match read_string(o, "tool_name") {
            Ok(s) => s,
            Err(e) => return Err(e),
        };
        let output = match read_string(o, "output") {
            Ok(s) => s,
            Err(e) => return Err(e),
        };
        match member(o, "is_error") {
            Some(JsonValue::Bool(is_error)) => Ok(
                ContentBlock::ToolResult { tool_use_id, tool_name, output, is_error: *is_error },
            ),
            _ => Err(text_of("missing is_error")),
        }
    } else if t == text_of("tool_result_image") {
        let tool_use_id = match read_string(o, "tool_use_id") {
            Ok(s) => s,
            Err(e) => return Err(e),
        };
        let tool_name = match read_string(o, "tool_name") {
            Ok(s) => s,
            Err(e) => return Err(e),
        };
        let caption = match read_string(o, "caption") {
            Ok(s) => s,
            Err(e) => return Err(e),
        };
        let base64_data = match read_string(o, "base64_data") {
            Ok(s) => s,
            Err(e) => return Err(e),
        };
        match member(o, "is_error") {
            Some(JsonValue::Bool(is_error)) => Ok(
                ContentBlock::ToolResultImage {
                    tool_use_id,
                    tool_name,
                    caption,
                    base64_data,
                    is_error: *is_error,
                },
            ),
            _ => Err(text_of("missing is_error")),
        }
    } else if t == text_of("reasoning") {
        match read_string(o, "data") {
            Ok(data) => Ok(ContentBlock::Reasoning { data }),
            Err(e) => Err(e),
        }
    } else {
        Err(joined("unsupported block type: ", t.as_str()))
    }
}

/// The first item that cannot be read decides the error.
proof fn lemma_blocks_stop(items: Seq<JView>, i: int)
    requires
        0 <= i < items.len(),
        decode_blocks(items.take(i)) is Ok,
        decode_block(items[i]) is Err,
    ensures
        decode_blocks(items) == Err::<Seq<BlockView>, Seq<char>>(decode_block(items[i])->Err_0),
    decreases items.len(),
{
    if i == items.len() - 1 {
        assert(items.drop_last() =~= items.take(i));
    } else {
        assert(items.drop_last().take(i) =~= items.take(i));
        lemma_blocks_stop(items.drop_last(), i);
    }
}

/// The first item that cannot be read decides the error.
proof fn lemma_messages_stop(items: Seq<JView>, i: int)
    requires
        0 <= i < items.len(),
        decode_messages(items.take(i)) is Ok,
        decode_message(items[i]) is Err,
    ensures
        decode_messages(items) == Err::<Seq<MessageView>, Seq<char>>(decode_message(items[i])->Err_0),
    decreases items.len(),
{
    if i == items.len() - 1 {
        assert(items.drop_last() =~= items.take(i));
    } else {
        assert(items.drop_last().take(i) =~= items.take(i));
        lemma_messages_stop(items.drop_last(), i);
    }
}

/// The first item that cannot be read decides the error.
proof fn lemma_children_stop(items: Seq<JView>, i: int)
    requires
        0 <= i < items.len(),
        decode_children(items.take(i)) is Ok,
        decode_child(items[i]) is Err,
    ensures
        decode_children(items) == Err::<Seq<ChildSessionView>, Seq<char>>(decode_child(items[i])->Err_0),
    decreases items.len(),
{
    if i == items.len() - 1 {
        assert(items.drop_last() =~= items.take(i));
    } else {
        assert(items.drop_last().take(i) =~= items.take(i));
        lemma_children_stop(items.drop_last(), i);
    }
}

/// Reads every item of an array, stopping at the first that cannot be read.
fn blocks_from_json(items: &Vec<JsonValue>) -> (r: Result<Vec<ContentBlock>, String>)
    ensures
        match decode_blocks(jitems(items@)) {
            Ok(v) => r matches Ok(x) && blocks_view(x@) == v,
            Err(e) => r matches Err(m) && m@ == e,
        },
{
    let ghost js = jitems(items@);
    let mut out: Vec<ContentBlock> = Vec::new();
    let mut i: usize = 0;
    assert(js.take(0) =~= Seq::<JView>::empty());
    assert(blocks_view(out@) =~= Seq::<BlockView>::empty());
    while i < items.len()
        invariant
            0 <= i <= items.len(),
            js == jitems(items@),
            decode_blocks(js.take(i as int)) == Ok::<Seq<BlockView>, Seq<char>>(blocks_view(out@)),
        decreases items.len() - i,
    {
        assert(js.take(i + 1).drop_last() =~= js.take(i as int));
        assert(js.take(i + 1).last() == items@[i as int]@);
        match content_block_from_json(&items[i]) {
            Ok(x) => {
                let ghost before = out@;
                out.push(x);
                assert(blocks_view(out@) =~= blocks_view(before).push(x@));
            },
            Err(e) => {
                proof {
                    lemma_blocks_stop(js, i as int);
                }
                return Err(e);
            },
        }
        i += 1;
    }
    assert(js.take(items.len() as int) =~= js);
    Ok(out)
}

/// Reads a message.
fn conversation_message_from_json(value: &JsonValue) -> (r: Result<ConversationMessage, String>)
    ensures
        match decode_message(value@) {
            Ok(m) => r matches Ok(x) && x@ == m,
            Err(e) => r matches Err(m) && m@ == e,
        },
{
    proof {
        reveal_strlit("message");
        reveal_strlit(" must be an object");
        reveal_strlit("message must be an object");
        assert("message"@ + " must be an object"@ =~= "message must be an object"@);
    }
    let o = match object_members(value, "message") {
        Ok(o) => o,
        Err(e) => return Err(e),
    };
    let name = match member_str(o, "role") {
        Some(r) => r,
        None => return Err(text_of("missing role")),
    };
    let role = if name == text_of("system") {
        MessageRole::System
    } else if name == text_of("user") {
        MessageRole::User
    } else if name == text_of("assistant") {
        MessageRole::Assistant
    } else if name == text_of("tool") {
        MessageRole::Tool
    } else {
        return Err(joined("unsupported message role: ", name.as_str()));
    };
    let items = match member_array(o, "blocks") {
        Some(items) => items,
        None => return Err(text_of("missing blocks")),
    };
    let blocks = match blocks_from_json(items) {
        Ok(b) => b,
        Err(e) => return Err(e),
    };
    let usage = match member(o, "usage") {
        None => None,
        Some(u) => match usage_from_json(u) {
            Ok(u) => Some(u),
            Err(e) => return Err(e),
        },
    };
    Ok(ConversationMessage { role, blocks, usage })
}

/// Reads every item of an array, stopping at the first that cannot be read.
fn messages_from_json(items: &Vec<JsonValue>) -> (r: Result<Vec<ConversationMessage>, String>)
    ensures
        match decode_messages(jitems(items@)) {
            Ok(v) => r matches Ok(x) && msgs_view(x@) == v,
            Err(e) => r matches Err(m) && m@ == e,
        },
{
    let ghost js = jitems(items@);
    let mut out: Vec<ConversationMessage> = Vec::new();
    let mut i: usize = 0;
    assert(js.take(0) =~= Seq::<JView>::empty());
    assert(msgs_view(out@) =~= Seq::<MessageView>::empty());
    while i < items.len()
        invariant
            0 <= i <= items.len(),
            js == jitems(items@),
            decode_messages(js.take(i as int)) == Ok::<Seq<MessageView>, Seq<char>>(msgs_view(out@)),
        decreases items.len() - i,
    {
        assert(js.take(i + 1).drop_last() =~= js.take(i as int));
        assert(js.take(i + 1).last() == items@[i as int]@);
        match conversation_message_from_json(&items[i]) {
            Ok(x) => {
                let ghost before = out@;
                out.push(x);
                assert(msgs_view(out@) =~= msgs_view(before).push(x@));
            },
            Err(e) => {
                proof {
                    lemma_messages_stop(js, i as int);
                }
                return Err(e);
            },
        }
        i += 1;
    }
    assert(js.take(items.len() as int) =~= js);
    Ok(out)
}

/// Reads a sub-agent conversation.
fn child_session_from_json(value: &JsonValue) -> (r: Result<ChildSession, String>)
    ensures
        match decode_child(value@) {
            Ok(c) => r matches Ok(x) && x@ == c,
            Err(e) => r matches Err(m) && m@ == e,
        },
{
    proof {
        reveal_strlit("child_session");
        reveal_strlit(" must be an object");
        reveal_strlit("child_session must be an object");
        assert("child_session"@ + " must be an object"@ =~= "child_session must be an object"@);
    }
    let o = match object_members(value, "child_session") {
        Ok(o) => o,
        Err(e) => return Err(e),
    };
    let id = match read_string(o, "id") {
        Ok(s) => s,
        Err(e) => return Err(e),
    };
    let goal = match read_string(o, "goal") {
        Ok(s) => s,
        Err(e) => return Err(e),
    };
    let items = match member_array(o, "messages") {
        Some(items) => items,
        None => return Err(text_of("missing messages in child_session")),
    };
    let messages = match messages_from_json(items) {
        Ok(m) => m,
        Err(e) => return Err(e),
    };
    Ok(ChildSession { id, goal, messages })
}

/// Reads every item of an array, stopping at the first that cannot be read.
fn children_from_json(items: &Vec<JsonValue>) -> (r: Result<Vec<ChildSession>, String>)
    ensures
        match decode_children(jitems(items@)) {
            Ok(v) => r matches Ok(x) && children_view(x@) == v,
            Err(e) => r matches Err(m) && m@ == e,
        },
{
    let ghost js = jitems(items@);
    let mut out: Vec<ChildSession> = Vec::new();
    let mut i: usize = 0;
    assert(js.take(0) =~= Seq::<JView>::empty());
    assert(children_view(out@) =~= Seq::<ChildSessionView>::empty());
    while i < items.len()
        invariant
            0 <= i <= items.len(),
            js == jitems(items@),
            decode_children(js.take(i as int)) == Ok::<Seq<ChildSessionView>, Seq<char>>(children_view(out@)),
        decreases items.len() - i,
    {
        assert(js.take(i + 1).drop_last() =~= js.take(i as int));
        assert(js.take(i + 1).last() == items@[i as int]@);
        match child_session_from_json(&items[i]) {
            Ok(x) => {
                let ghost before = out@;
                out.push(x);
                assert(children_view(out@) =~= children_view(before).push(x@));
            },
            Err(e) => {
                proof {
                    lemma_children_stop(js, i as int);
                }
                return Err(e);
            },
        }
        i += 1;
    }
    assert(js.take(items.len() as int) =~= js);
    Ok(out)
}

impl Session {
    /// Reads a stored session. It must be an object with a `version` of 1 or 2
    /// and a `messages` list; `model` and `title` are taken when they are
    /// strings, `child_sessions` when it is a list (none otherwise). Any other
    /// shape is a `Format` error naming what is wrong.
    pub fn from_json(value: &JsonValue) -> (r: Result<Session, SessionError>)
        ensures
            match decode_session(value@) {
                Ok(v) => r matches Ok(x) && x@ == v,
                Err(e) => r matches Err(SessionError::Format(m)) && m@ == e,
            },
    {
        proof {
            reveal_strlit("session");
            reveal_strlit(" must be an object");
            reveal_strlit("session must be an object");
            assert("session"@ + " must be an object"@ =~= "session must be an object"@);
        }
        let o = match object_members(value, "session") {
            Ok(o) => o,
            Err(e) => return Err(SessionError::Format(e)),
        };
        let n = match member(o, "version") {
            Some(JsonValue::Number(n)) => *n,
            _ => return Err(SessionError::Format(text_of("missing version"))),
        };
        if n < 0 || n > 0xFFFF_FFFF {
            return Err(SessionError::Format(text_of("version out of range")));
        }
        if n != 1 && n != 2 {
            let mut v = chars_of("unsupported session version ");
            push_dec(&mut v, n as u64);
            return Err(SessionError::Format(string_of(&v)));
        }
        let items = match member_array(o, "messages") {
            Some(items) => items,
            None => return Err(SessionError::Format(text_of("missing messages"))),
        };
        let messages = match messages_from_json(items) {
            Ok(m) => m,
            Err(e) => return Err(SessionError::Format(e)),
        };
        let child_sessions = match member_array(o, "child_sessions") {
            None => Vec::new(),
            Some(cs) => match children_from_json(cs) {
                Ok(c) => c,
                Err(e) => return Err(SessionError::Format(e)),
            },
        };
        let r = Session {
            version: n as u32,
            model: member_str(o, "model"),
            title: member_str(o, "title"),
            messages,
            child_sessions,
        };
        proof {
            assert(children_view(r.child_sessions@) =~= decode_session(value@)->Ok_0.child_sessions);
        }
        Ok(r)
    }
}

/// A string value.
fn string_value(s: &String) -> (r: JsonValue)
    ensures
        r@ == JView::Str(s@),
{
    JsonValue::String(s.clone())
}

/// A string value holding a literal.
fn literal_value(s: &str) -> (r: JsonValue)
    ensures
        r@ == JView::Str(s@),
{
    JsonValue::String(text_of(s))
}

/// A number value.
fn number_value(n: u32) -> (r: JsonValue)
    ensures
        r@ == JView::Number(n as int),
{
    JsonValue::Number(n as i64)
}

/// Writes a token usage.
fn usage_to_json(u: TokenUsage) -> (r: JsonValue)
    ensures
        r@ == usage_json(u),
{
    let mut m: Vec<(String, JsonValue)> = Vec::new();
    m.push((text_of("cache_creation_input_tokens"), number_value(u.cache_creation_input_tokens)));
    m.push((text_of("cache_read_input_tokens"), number_value(u.cache_read_input_tokens)));
    m.push((text_of("input_tokens"), number_value(u.input_tokens)));
    m.push((text_of("output_tokens"), number_value(u.output_tokens)));
    let ghost mv = m@;
    let r = JsonValue::Object(m);
    proof {
        lemma_compound_view(r);
        assert(jmembers(mv) =~= usage_json(u)->Object_0);
    }
    r
}

/// Writes a content block.
fn content_block_to_json(b: &ContentBlock) -> (r: JsonValue)
    ensures
        r@ == block_json(b@),
{
    let mut m: Vec<(String, JsonValue)> = Vec::new();
    match b {
        ContentBlock::Text { text } => {
            m.push((text_of("text"), string_value(text)));
            m.push((text_of("type"), literal_value("text")));
        },
        ContentBlock::ToolUse { id, name, input } => {
            m.push((text_of("id"), string_value(id)));
            m.push((text_of("input"), string_value(input)));
            m.push((text_of("name"), string_value(name)));
            m.push((text_of("type"), literal_value("tool_use")));
        },
        ContentBlock::ToolResult { tool_use_id, tool_name, output, is_error } => {
            m.push((text_of("is_error"), JsonValue::Bool(*is_error)));
            m.push((text_of("output"), string_value(output)));
            m.push((text_of("tool_name"), string_value(tool_name)));
            m.push((text_of("tool_use_id"), string_value(tool_use_id)));
            m.push((text_of("type"), literal_value("tool_result")));
        },
        ContentBlock::ToolResultImage { tool_use_id, tool_name, caption, base64_data, is_error } => {
            m.push((text_of("base64_data"), string_value(base64_data)));
            m.push((text_of("caption"), string_value(caption)));
            m.push((text_of("is_error"), JsonValue::Bool(*is_error)));
            m.push((text_of("tool_name"), string_value(tool_name)));
            m.push((text_of("tool_use_id"), string_value(tool_use_id)));
            m.push((text_of("type"), literal_value("tool_result_image")));
        },
        ContentBlock::Reasoning { data } => {
            m.push((text_of("data"), string_value(data)));
            m.push((text_of("type"), literal_value("reasoning")));
        },
    }
    let ghost mv = m@;
    let r = JsonValue::Object(m);
    proof {
        lemma_compound_view(r);
        assert(jmembers(mv) =~= block_json(b@)->Object_0);
    }
    r
}

/// Writes a message: its blocks, its role and, when recorded, its usage.
fn conversation_message_to_json(msg: &ConversationMessage) -> (r: JsonValue)
    ensures
        r@ == message_json(msg@),
{
    let mut items: Vec<JsonValue> = Vec::new();
    let mut i: usize = 0;
    while i < msg.blocks.len()
        invariant
            0 <= i <= msg.blocks.len(),
            items@.len() == i,
            forall|k: int| 0 <= k < i ==> #[trigger] items@[k]@ == block_json(msg.blocks@[k]@),
        decreases msg.blocks.len() - i,
    {
        items.push(content_block_to_json(&msg.blocks[i]));
        i += 1;
    }
    let ghost iv = items@;
    let blocks = JsonValue::Array(items);
    proof {
        lemma_compound_view(blocks);
        let want = blocks_view(msg.blocks@).map_values(|b: BlockView| block_json(b));
        assert forall|k: int| 0 <= k < iv.len() implies #[trigger] jitems(iv)[k] == want[k] by {
            assert(iv[k]@ == block_json(msg.blocks@[k]@));
        }
        assert(jitems(iv) =~= want);
    }
    let role = match msg.role {
        MessageRole::System => "system",
        MessageRole::User => "user",
        MessageRole::Assistant => "assistant",
        MessageRole::Tool => "tool",
    };
    let mut m: Vec<(String, JsonValue)> = Vec::new();
    m.push((text_of("blocks"), blocks));
    m.push((text_of("role"), literal_value(role)));
    match msg.usage {
        Some(u) => m.push((text_of("usage"), usage_to_json(u))),
        None => {},
    }
    let ghost mv = m@;
    let r = JsonValue::Object(m);
    proof {
        lemma_compound_view(r);
        assert(jmembers(mv) =~= message_json(msg@)->Object_0);
    }
    r
}

/// Writes a list of messages.
fn messages_to_json(msgs: &Vec<ConversationMessage>) -> (r: JsonValue)
    ensures
        r@ == messages_json(msgs_view(msgs@)),
{
    let mut items: Vec<JsonValue> = Vec::new();
    let mut i: usize = 0;
    while i < msgs.len()
        invariant
            0 <= i <= msgs.len(),
            items@.len() == i,
            forall|k: int| 0 <= k < i ==> #[trigger] items@[k]@ == message_json(msgs@[k]@),
        decreases msgs.len() - i,
    {
        items.push(conversation_message_to_json(&msgs[i]));
        i += 1;
    }
    let ghost iv = items@;
    let r = JsonValue::Array(items);
    proof {
        lemma_compound_view(r);
        let want = msgs_view(msgs@).map_values(|m: MessageView| message_json(m));
        assert forall|k: int| 0 <= k < iv.len() implies #[trigger] jitems(iv)[k] == want[k] by {
            assert(iv[k]@ == message_json(msgs@[k]@));
        }
        assert(jitems(iv) =~= want);
    }
    r
}

/// Writes a sub-agent conversation.
fn child_session_to_json(c: &ChildSession) -> (r: JsonValue)
    ensures
        r@ == child_json(c@),
{
    let mut m: Vec<(String, JsonValue)> = Vec::new();
    m.push((text_of("goal"), string_value(&c.goal)));
    m.push((text_of("id"), string_value(&c.id)));
    m.push((text_of("messages"), messages_to_json(&c.messages)));
    let ghost mv = m@;
    let r = JsonValue::Object(m);
    proof {
        lemma_compound_view(r);
        assert(jmembers(mv) =~= child_json(c@)->Object_0);
    }
    r
}

impl Session {
    /// The stored form of the session: an object with its sub-agent
    /// conversations, its messages, its model and title when set, and its
    /// version, members listed by ascending key.
    pub fn to_json(&self) -> (r: JsonValue)
        ensures
            r@ == session_json(self@),
    {
        let mut items: Vec<JsonValue> = Vec::new();
        let mut i: usize = 0;
        while i < self.child_sessions.len()
            invariant
                0 <= i <= self.child_sessions.len(),
                items@.len() == i,
                forall|k: int|
                    0 <= k < i ==> #[trigger] items@[k]@ == child_json(self.child_sessions@[k]@),
            decreases self.child_sessions.len() - i,
        {
            items.push(child_session_to_json(&self.child_sessions[i]));
            i += 1;
        }
        let ghost iv = items@;
        let children = JsonValue::Array(items);
        proof {
            lemma_compound_view(children);
            let want = children_view(self.child_sessions@).map_values(
                |c: ChildSessionView| child_json(c),
            );
            assert forall|k: int| 0 <= k < iv.len() implies #[trigger] jitems(iv)[k] == want[k] by {
                assert(iv[k]@ == child_json(self.child_sessions@[k]@));
            }
            assert(jitems(iv) =~= want);
        }
        let mut m: Vec<(String, JsonValue)> = Vec::new();
        m.push((text_of("child_sessions"), children));
        m.push((text_of("messages"), messages_to_json(&self.messages)));
        match &self.model {
            Some(model) => m.push((text_of("model"), string_value(model))),
            None => {},
        }
        match &self.title {
            Some(title) => m.push((text_of("title"), string_value(title))),
            None => {},
        }
        m.push((text_of("version"), number_value(self.version)));
        let ghost mv = m@;
        let r = JsonValue::Object(m);
        proof {
            lemma_compound_view(r);
            assert(jmembers(mv) =~= session_json(self@)->Object_0);
        }
        r
    }
}

/// The text of a JSON syntax error (`Display` of `serde_json::Error`).
/// Nothing is stated of it.
#[verifier::external_body]
fn json_error_text(e: &serde_json::Error) -> String {
    e.to_string()
}

impl SessionError {
    /// The error as a message: a format error reads as its own text; an I/O
    /// or JSON syntax error reads as that error's message, which is not stated.
    pub fn message(&self) -> (r: String)
        ensures
            self matches SessionError::Format(m) ==> r@ == m@,
    {
        match self {
            SessionError::Io(e) => io_error_text(e),
            SessionError::Json(e) => json_error_text(e),
            SessionError::Format(m) => m.clone(),
        }
    }
}

// ---------------------------------------------------------------------------
// Copying and rendering values
// ---------------------------------------------------------------------------

/// A copy of a JSON value, equal to it.
#[verifier::loop_isolation(false)]
pub fn copy_json(j: &JsonValue) -> (r: JsonValue)
    ensures
        r@ == j@,
    decreases j,
{
    proof {
        lemma_compound_view(*j);
    }
    match j {
        JsonValue::Null => JsonValue::Null,
        JsonValue::Bool(b) => JsonValue::Bool(*b),
        JsonValue::Number(n) => JsonValue::Number(*n),
        JsonValue::String(s) => JsonValue::String(s.clone()),
        JsonValue::Array(items) => {
            let mut out: Vec<JsonValue> = Vec::new();
            let mut i: usize = 0;
            while i < items.len()
                invariant
                    0 <= i <= items.len(),
                    out@.len() == i,
                    forall|k: int| 0 <= k < i ==> #[trigger] out@[k]@ == items@[k]@,
                decreases items.len() - i,
            {
                proof {
                    assert(decreases_to!(*j => *items));
                    assert(decreases_to!(*items => items@));
                    assert(decreases_to!(items@ => items@[i as int]));
                }
                out.push(copy_json(&items[i]));
                i += 1;
            }
            let ghost ov = out@;
            let r = JsonValue::Array(out);
            proof {
                lemma_compound_view(r);
                assert forall|k: int| 0 <= k < ov.len() implies #[trigger] jitems(ov)[k] == jitems(
                    items@,
                )[k] by {
                    assert(ov[k]@ == items@[k]@);
                }
                assert(jitems(ov) =~= jitems(items@));
            }
            r
        },
        JsonValue::Object(members) => {
            let mut out: Vec<(String, JsonValue)> = Vec::new();
            let mut i: usize = 0;
            while i < members.len()
                invariant
                    0 <= i <= members.len(),
                    out@.len() == i,
                    jmembers(out@) =~= jmembers(members@).take(i as int),
                decreases members.len() - i,
            {
                proof {
                    assert(decreases_to!(*j => *members));
                    assert(decreases_to!(*members => members@));
                    assert(decreases_to!(members@ => members@[i as int]));
                    assert(decreases_to!(members@[i as int] => members@[i as int].1));
                }
                let ghost before = out@;
                out.push((members[i].0.clone(), copy_json(&members[i].1)));
                proof {
                    assert(jmembers(out@) =~= jmembers(before).push(jmembers(members@)[i as int]));
                }
                i += 1;
            }
            let ghost ov = out@;
            let r = JsonValue::Object(out);
            proof {
                lemma_compound_view(r);
                assert(jmembers(members@).take(members@.len() as int) =~= jmembers(members@));
            }
            r
        },
    }
}

/// The compact text of a JSON value: no spaces, members and items separated
/// by commas, strings quoted and escaped as `serde_json` writes them.
pub open spec fn json_text_of(j: JView) -> Seq<char>
    decreases j,
{
    match j {
        JView::Null => "null"@,
        JView::Bool(b) => if b {
            "true"@
        } else {
            "false"@
        },
        JView::Number(n) => if n < 0 {
            "-"@ + dec((-n) as nat)
        } else {
            dec(n as nat)
        },
        JView::Str(s) => json_quoted(s),
        JView::Array(a) => "["@ + join(item_texts(a), ","@) + "]"@,
        JView::Object(o) => "{"@ + join(member_texts(o), ","@) + "}"@,
    }
}

/// The item texts of an array, as `json_text_of` joins them.
pub open spec fn item_texts(a: Seq<JView>) -> Seq<Seq<char>>
    decreases a,
{
    Seq::new(a.len(), |i: int| if 0 <= i < a.len() { json_text_of(a[i]) } else { seq![] })
}

/// The member texts of an object, as `json_text_of` joins them.
pub open spec fn member_texts(o: Seq<(Seq<char>, JView)>) -> Seq<Seq<char>>
    decreases o,
{
    Seq::new(
        o.len(),
        |i: int|
            if 0 <= i < o.len() {
                json_quoted(o[i].0) + ":"@ + json_text_of(o[i].1)
            } else {
                seq![]
            },
    )
}

/// Joining one more part.
proof fn lemma_join_push(parts: Seq<Seq<char>>, p: Seq<char>, sep: Seq<char>)
    ensures
        join(parts.push(p), sep) == if parts.len() == 0 {
            p
        } else {
            join(parts, sep) + sep + p
        },
{
    assert(parts.push(p).drop_last() =~= parts);
}

/// Appends the compact text of `j` to `out`.
pub fn push_json_text(out: &mut Vec<char>, j: &JsonValue)
    ensures
        final(out)@ == old(out)@ + json_text_of(j@),
    decreases j,
{
    proof {
        lemma_compound_view(*j);
    }
    let ghost o0 = out@;
    match j {
        JsonValue::Null => {
            assert(j@ == JView::Null);
            push_str(out, "null");
            assert(out@ =~= o0 + json_text_of(j@));
        },
        JsonValue::Bool(b) => {
            if *b {
                push_str(out, "true");
            } else {
                push_str(out, "false");
            }
            assert(out@ =~= o0 + json_text_of(j@));
        },
        JsonValue::Number(n) => {
            if *n < 0 {
                push_str(out, "-");
                let m: i128 = 0i128 - (*n as i128);
                push_dec(out, m as u64);
            } else {
                push_dec(out, *n as u64);
            }
            assert(out@ =~= o0 + json_text_of(j@));
        },
        JsonValue::String(s) => {
            let q = json_quote(s.as_str());
            push_str(out, q.as_str());
            assert(out@ =~= o0 + json_text_of(j@));
        },
        JsonValue::Array(items) => {
            let ghost texts = item_texts(jitems(items@));
            proof {
                assert(decreases_to!(*j => *items));
                assert(decreases_to!(*items => items@));
            }
            push_str(out, "[");
            let mut body: Vec<char> = Vec::new();
            let mut i: usize = 0;
            while i < items.len()
                invariant
                    0 <= i <= items.len(),
                    texts == item_texts(jitems(items@)),
                    body@ == join(texts.take(i as int), ","@),
                    decreases_to!(*j => items@),
                decreases items.len() - i,
            {
                proof {
                    assert(decreases_to!(items@ => items@[i as int]));
                    assert(texts.take(i + 1) =~= texts.take(i as int).push(texts[i as int]));
                    lemma_join_push(texts.take(i as int), texts[i as int], ","@);
                }
                let ghost before = body@;
                if i > 0 {
                    push_str(&mut body, ",");
                }
                push_json_text(&mut body, &items[i]);
                proof {
                    assert(texts[i as int] == json_text_of(items@[i as int]@));
                }
                i += 1;
            }
            proof {
                assert(texts.take(items.len() as int) =~= texts);
            }
            crate::text::push_all(out, &body);
            push_str(out, "]");
            assert(j@ == JView::Array(jitems(items@)));
            assert(json_text_of(j@) == "["@ + join(texts, ","@) + "]"@);
            assert(out@ =~= o0 + json_text_of(j@));
        },
        JsonValue::Object(members) => {
            let ghost texts = member_texts(jmembers(members@));
            proof {
                assert(decreases_to!(*j => *members));
                assert(decreases_to!(*members => members@));
            }
            push_str(out, "{");
            let mut body: Vec<char> = Vec::new();
            let mut i: usize = 0;
            while i < members.len()
                invariant
                    0 <= i <= members.len(),
                    texts == member_texts(jmembers(members@)),
                    body@ == join(texts.take(i as int), ","@),
                    decreases_to!(*j => members@),
                decreases members.len() - i,
            {
                proof {
                    assert(decreases_to!(members@ => members@[i as int]));
                    assert(decreases_to!(members@[i as int] => members@[i as int].1));
                    assert(texts.take(i + 1) =~= texts.take(i as int).push(texts[i as int]));
                    lemma_join_push(texts.take(i as int), texts[i as int], ","@);
                }
                if i > 0 {
                    push_str(&mut body, ",");
                }
                let q = json_quote(members[i].0.as_str());
                push_str(&mut body, q.as_str());
                push_str(&mut body, ":");
                push_json_text(&mut body, &members[i].1);
                i += 1;
            }
            proof {
                assert(texts.take(members.len() as int) =~= texts);
            }
            crate::text::push_all(out, &body);
            push_str(out, "}");
            assert(j@ == JView::Object(jmembers(members@)));
            assert(json_text_of(j@) == "{"@ + join(texts, ","@) + "}"@);
            assert(out@ =~= o0 + json_text_of(j@));
        },
    }
}

/// The compact text of a JSON value.
pub fn json_value_text(j: &JsonValue) -> (r: String)
    ensures
        r@ == json_text_of(j@),
{
    let mut v: Vec<char> = Vec::new();
    push_json_text(&mut v, j);
    assert(v@ =~= json_text_of(j@));
    string_of(&v)
}

/// A copy of an object's members, equal to them.
pub fn copy_members(members: &Vec<(String, JsonValue)>) -> (r: Vec<(String, JsonValue)>)
    ensures
        jmembers(r@) == jmembers(members@),
{
    let mut out: Vec<(String, JsonValue)> = Vec::new();
    let mut i: usize = 0;
    while i < members.len()
        invariant
            0 <= i <= members.len(),
            jmembers(out@) =~= jmembers(members@).take(i as int),
        decreases members.len() - i,
    {
        let ghost before = out@;
        out.push((members[i].0.clone(), copy_json(&members[i].1)));
        proof {
            assert(jmembers(out@) =~= jmembers(before).push(jmembers(members@)[i as int]));
        }
        i += 1;
    }
    assert(jmembers(members@).take(members@.len() as int) =~= jmembers(members@));
    out
}

impl Clone for JsonValue {
    /// A copy equal to the value.
    fn clone(&self) -> (r: Self)
        ensures
            r@ == self@,
    {
        copy_json(self)
    }
}

} // verus!
