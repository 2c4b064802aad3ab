//! Conversation messages and sessions.
use vstd::prelude::*;

use crate::text::{chars_of, utf8_len, utf8_len_of};

verus! {

/// Who produced a message.
#[derive(Debug, Clone, Copy, PartialEq, Eq, Structural)]
pub enum MessageRole {
    System,
    User,
    Assistant,
    Tool,
}

/// Token counts reported for one model call.
#[derive(Debug, Clone, Copy, PartialEq, Eq, Structural, Default)]
pub struct TokenUsage {
    pub input_tokens: u32,
    pub output_tokens: u32,
    pub cache_creation_input_tokens: u32,
    pub cache_read_input_tokens: u32,
}

impl TokenUsage {
    /// Sum of the four counters.
    pub open spec fn spec_total(&self) -> nat {
        (self.input_tokens + self.output_tokens + self.cache_creation_input_tokens
            + self.cache_read_input_tokens) as nat
    }

    /// Sum of the four counters.
    pub fn total_tokens(&self) -> (t: u64)
        ensures
            t == self.spec_total(),
    {
        self.input_tokens as u64 + self.output_tokens as u64
            + self.cache_creation_input_tokens as u64 + self.cache_read_input_tokens as u64
    }
}

/// One block of message content.
#[derive(Debug, Clone, PartialEq, Eq)]
pub enum ContentBlock {
    Text { text: String },
    ToolUse { id: String, name: String, input: String },
    ToolResult { tool_use_id: String, tool_name: String, output: String, is_error: bool },
    Reasoning { data: String },
    ToolResultImage {
        tool_use_id: String,
        tool_name: String,
        caption: String,
        base64_data: String,
        is_error: bool,
    },
}

/// A message of a conversation.
#[derive(Debug, Clone, PartialEq, Eq)]
pub struct ConversationMessage {
    pub role: MessageRole,
    pub blocks: Vec<ContentBlock>,
    pub usage: Option<TokenUsage>,
}

/// A sub-agent conversation recorded in a session.
#[derive(Debug, Clone, PartialEq, Eq)]
pub struct ChildSession {
    pub id: String,
    pub goal: String,
    pub messages: Vec<ConversationMessage>,
}

/// A stored conversation.
#[derive(Debug, Clone, PartialEq, Eq)]
pub struct Session {
    pub version: u32,
    pub model: Option<String>,
    pub title: Option<String>,
    pub messages: Vec<ConversationMessage>,
    pub child_sessions: Vec<ChildSession>,
}

/// A content block as values.
pub enum BlockView {
    Text { text: Seq<char> },
    ToolUse { id: Seq<char>, name: Seq<char>, input: Seq<char> },
    ToolResult { tool_use_id: Seq<char>, tool_name: Seq<char>, output: Seq<char>, is_error: bool },
    Reasoning { data: Seq<char> },
    ToolResultImage {
        tool_use_id: Seq<char>,
        tool_name: Seq<char>,
        caption: Seq<char>,
        base64_data: Seq<char>,
        is_error: bool,
    },
}

/// A message as values.
pub struct MessageView {
    pub role: MessageRole,
    pub blocks: Seq<BlockView>,
    pub usage: Option<TokenUsage>,
}

impl View for ContentBlock {
    type V = BlockView;

    open spec fn view(&self) -> BlockView {
        match self {
            ContentBlock::Text { text } => BlockView::Text { text: text@ },
            ContentBlock::ToolUse { id, name, input } => BlockView::ToolUse {
                id: id@,
                name: name@,
                input: input@,
            },
            ContentBlock::ToolResult { tool_use_id, tool_name, output, is_error } =>
                BlockView::ToolResult {
                tool_use_id: tool_use_id@,
                tool_name: tool_name@,
                output: output@,
                is_error: *is_error,
            },
            ContentBlock::Reasoning { data } => BlockView::Reasoning { data: data@ },
            ContentBlock::ToolResultImage { tool_use_id, tool_name, caption, base64_data, is_error } =>
                BlockView::ToolResultImage {
                tool_use_id: tool_use_id@,
                tool_name: tool_name@,
                caption: caption@,
                base64_data: base64_data@,
                is_error: *is_error,
            },
        }
    }
}

/// Views of a sequence of blocks.
pub open spec fn blocks_view(bs: Seq<ContentBlock>) -> Seq<BlockView> {
    bs.map_values(|b: ContentBlock| b@)
}

impl View for ConversationMessage {
    type V = MessageView;

    open spec fn view(&self) -> MessageView {
        MessageView { role: self.role, blocks: blocks_view(self.blocks@), usage: self.usage }
    }
}

/// Views of a sequence of messages.
pub open spec fn msgs_view(ms: Seq<ConversationMessage>) -> Seq<MessageView> {
    ms.map_values(|m: ConversationMessage| m@)
}

/// Views of a sequence of optional strings.
pub open spec fn opt_view(s: Option<String>) -> Option<Seq<char>> {
    match s {
        Some(v) => Some(v@),
        None => None,
    }
}

/// A sub-agent conversation as values.
pub struct ChildSessionView {
    pub id: Seq<char>,
    pub goal: Seq<char>,
    pub messages: Seq<MessageView>,
}

impl View for ChildSession {
    type V = ChildSessionView;

    open spec fn view(&self) -> ChildSessionView {
        ChildSessionView { id: self.id@, goal: self.goal@, messages: msgs_view(self.messages@) }
    }
}

/// Views of a sequence of child sessions.
pub open spec fn children_view(cs: Seq<ChildSession>) -> Seq<ChildSessionView> {
    cs.map_values(|c: ChildSession| c@)
}

/// A session as values.
pub struct SessionView {
    pub version: u32,
    pub model: Option<Seq<char>>,
    pub title: Option<Seq<char>>,
    pub messages: Seq<MessageView>,
    pub child_sessions: Seq<ChildSessionView>,
}

impl View for Session {
    type V = SessionView;

    open spec fn view(&self) -> SessionView {
        SessionView {
            version: self.version,
            model: opt_view(self.model),
            title: opt_view(self.title),
            messages: msgs_view(self.messages@),
            child_sessions: children_view(self.child_sessions@),
        }
    }
}

/// The byte length of a string as `str::len` reports it (its UTF-8 size).
pub open spec fn byte_count(s: Seq<char>) -> nat {
    sat(utf8_len(s))
}

/// The estimated token cost of one block: a quarter of its UTF-8 bytes, plus one.
pub open spec fn block_tokens(b: BlockView) -> nat {
    match b {
        BlockView::Text { text } => byte_count(text) / 4 + 1,
        BlockView::ToolUse { name, input, .. } => sat(byte_count(name) + byte_count(input)) / 4 + 1,
        BlockView::ToolResult { tool_name, output, .. } => sat(
            byte_count(tool_name) + byte_count(output),
        ) / 4 + 1,
        BlockView::Reasoning { data } => byte_count(data) / 4 + 1,
        BlockView::ToolResultImage { tool_name, caption, base64_data, .. } => sat(
            sat(byte_count(tool_name) + byte_count(caption)) + byte_count(base64_data),
        ) / 4 + 1,
    }
}

/// Sum of the token estimates of `blocks`.
pub open spec fn blocks_tokens(blocks: Seq<BlockView>) -> nat
    decreases blocks.len(),
{
    if blocks.len() == 0 {
        0
    } else {
        blocks_tokens(blocks.drop_last()) + block_tokens(blocks.last())
    }
}

/// The token estimate of a message.
pub open spec fn message_tokens(m: MessageView) -> nat {
    blocks_tokens(m.blocks)
}

/// Sum of the token estimates of `msgs`.
pub open spec fn messages_tokens(msgs: Seq<MessageView>) -> nat
    decreases msgs.len(),
{
    if msgs.len() == 0 {
        0
    } else {
        messages_tokens(msgs.drop_last()) + message_tokens(msgs.last())
    }
}

/// `n`, or `usize::MAX` when `n` is larger.
pub open spec fn sat(n: nat) -> nat {
    if n <= usize::MAX {
        n
    } else {
        usize::MAX as nat
    }
}

/// `a + b` without overflow, saturating at `usize::MAX`.
pub fn sat_add(a: usize, b: usize) -> (r: usize)
    ensures
        r == sat((a + b) as nat),
{
    if a > usize::MAX - b {
        usize::MAX
    } else {
        a + b
    }
}

/// UTF-8 byte length of a string, saturating.
fn byte_len(s: &String) -> (n: usize)
    ensures
        n == byte_count(s@),
{
    utf8_len_of(s.as_str())
}

/// Token estimate of a block, saturating at `usize::MAX`.
pub fn estimate_block_tokens(b: &ContentBlock) -> (n: usize)
    ensures
        n == block_tokens(b@),
{
    match b {
        ContentBlock::Text { text } => byte_len(text) / 4 + 1,
        ContentBlock::ToolUse { name, input, .. } => sat_add(byte_len(name), byte_len(input)) / 4
            + 1,
        ContentBlock::ToolResult { tool_name, output, .. } => sat_add(
            byte_len(tool_name),
            byte_len(output),
        ) / 4 + 1,
        ContentBlock::Reasoning { data } => byte_len(data) / 4 + 1,
        ContentBlock::ToolResultImage { tool_name, caption, base64_data, .. } => {
            let a = sat_add(byte_len(tool_name), byte_len(caption));
            sat_add(a, byte_len(base64_data)) / 4 + 1
        },
    }
}

/// Token estimate of a message (sum over its blocks), saturating at `usize::MAX`.
pub fn estimate_message_tokens(m: &ConversationMessage) -> (n: usize)
    ensures
        n == sat(message_tokens(m@)),
{
    let mut total: usize = 0;
    let mut i: usize = 0;
    while i < m.blocks.len()
        invariant
            0 <= i <= m.blocks.len(),
            total == sat(blocks_tokens(blocks_view(m.blocks@.take(i as int)))),
        decreases m.blocks.len() - i,
    {
        assert(blocks_view(m.blocks@.take(i + 1)).drop_last() == blocks_view(m.blocks@.take(i as int)));
        total = sat_add(total, estimate_block_tokens(&m.blocks[i]));
        i += 1;
    }
    assert(m.blocks@.take(m.blocks.len() as int) == m.blocks@);
    total
}

/// Token estimate of `msgs[from..to]`, saturating at `usize::MAX`.
pub fn estimate_range_tokens(msgs: &Vec<ConversationMessage>, from: usize, to: usize) -> (n: usize)
    requires
        from <= to <= msgs.len(),
    ensures
        n == sat(messages_tokens(msgs_view(msgs@.subrange(from as int, to as int)))),
{
    let mut total: usize = 0;
    let mut i: usize = from;
    while i < to
        invariant
            from <= i <= to <= msgs.len(),
            total == sat(messages_tokens(msgs_view(msgs@.subrange(from as int, i as int)))),
        decreases to - i,
    {
        assert(msgs_view(msgs@.subrange(from as int, i + 1)).drop_last() == msgs_view(msgs@.subrange(
            from as int,
            i as int,
        )));
        total = sat_add(total, estimate_message_tokens(&msgs[i]));
        i += 1;
    }
    total
}

/// A copy of a string with the same characters.
pub fn copy_string(s: &String) -> (r: String)
    ensures
        r@ == s@,
{
    s.clone()
}

/// A copy of a block, equal to it.
pub fn copy_block(b: &ContentBlock) -> (r: ContentBlock)
    ensures
        r@ == b@,
{
    match b {
        ContentBlock::Text { text } => ContentBlock::Text { text: text.clone() },
        ContentBlock::ToolUse { id, name, input } => ContentBlock::ToolUse {
            id: id.clone(),
            name: name.clone(),
            input: input.clone(),
        },
        ContentBlock::ToolResult { tool_use_id, tool_name, output, is_error } =>
            ContentBlock::ToolResult {
            tool_use_id: tool_use_id.clone(),
            tool_name: tool_name.clone(),
            output: output.clone(),
            is_error: *is_error,
        },
        ContentBlock::Reasoning { data } => ContentBlock::Reasoning { data: data.clone() },
        ContentBlock::ToolResultImage { tool_use_id, tool_name, caption, base64_data, is_error } =>
            ContentBlock::ToolResultImage {
            tool_use_id: tool_use_id.clone(),
            tool_name: tool_name.clone(),
            caption: caption.clone(),
            base64_data: base64_data.clone(),
            is_error: *is_error,
        },
    }
}

/// A copy of a message, equal to it.
pub fn copy_message(m: &ConversationMessage) -> (r: ConversationMessage)
    ensures
        r@ == m@,
{
    let mut blocks: Vec<ContentBlock> = Vec::new();
    let mut i: usize = 0;
    while i < m.blocks.len()
        invariant
            0 <= i <= m.blocks.len(),
            blocks@.len() == i,
            forall|k: int| 0 <= k < i ==> #[trigger] blocks@[k]@ == m.blocks@[k]@,
        decreases m.blocks.len() - i,
    {
        blocks.push(copy_block(&m.blocks[i]));
        i += 1;
    }
    assert(blocks_view(blocks@) =~= blocks_view(m.blocks@));
    ConversationMessage { role: m.role, blocks, usage: m.usage }
}

/// A copy of `msgs[from..to]`.
pub fn copy_messages(msgs: &Vec<ConversationMessage>, from: usize, to: usize) -> (r: Vec<
    ConversationMessage,
>)
    requires
        from <= to <= msgs.len(),
    ensures
        msgs_view(r@) == msgs_view(msgs@.subrange(from as int, to as int)),
{
    let mut r: Vec<ConversationMessage> = Vec::new();
    let mut i: usize = from;
    while i < to
        invariant
            from <= i <= to <= msgs.len(),
            r@.len() == i - from,
            forall|k: int| 0 <= k < i - from ==> #[trigger] r@[k]@ == msgs@[from + k]@,
        decreases to - i,
    {
        r.push(copy_message(&msgs[i]));
        i += 1;
    }
    assert(msgs_view(r@) =~= msgs_view(msgs@.subrange(from as int, to as int)));
    r
}

/// A copy of a child session.
pub fn copy_child(c: &ChildSession) -> (r: ChildSession)
    ensures
        r@ == c@,
{
    let messages = copy_messages(&c.messages, 0, c.messages.len());
    assert(c.messages@.subrange(0, c.messages@.len() as int) == c.messages@);
    ChildSession { id: c.id.clone(), goal: c.goal.clone(), messages }
}

/// A copy of a session.
pub fn copy_session(s: &Session) -> (r: Session)
    ensures
        r@ == s@,
{
    let messages = copy_messages(&s.messages, 0, s.messages.len());
    assert(s.messages@.subrange(0, s.messages@.len() as int) == s.messages@);
    let mut children: Vec<ChildSession> = Vec::new();
    let mut i: usize = 0;
    while i < s.child_sessions.len()
        invariant
            0 <= i <= s.child_sessions.len(),
            children@.len() == i,
            forall|k: int| 0 <= k < i ==> #[trigger] children@[k]@ == s.child_sessions@[k]@,
        decreases s.child_sessions.len() - i,
    {
        children.push(copy_child(&s.child_sessions[i]));
        i += 1;
    }
    let r = Session {
        version: s.version,
        model: copy_opt_string(&s.model),
        title: copy_opt_string(&s.title),
        messages,
        child_sessions: children,
    };
    assert(children_view(r.child_sessions@) =~= children_view(s.child_sessions@));
    r
}

/// A copy of an optional string.
pub fn copy_opt_string(s: &Option<String>) -> (r: Option<String>)
    ensures
        r == *s,
{
    match s {
        Some(v) => Some(v.clone()),
        None => None,
    }
}

impl ConversationMessage {
    /// A user message with one text block.
    pub fn user_text(text: &str) -> (m: Self)
        ensures
            m.role == MessageRole::User,
            m.blocks@.len() == 1,
            m@.blocks == seq![BlockView::Text { text: text@ }],
            m.usage is None,
    {
        let t = crate::text::string_of(&chars_of(text));
        let mut blocks: Vec<ContentBlock> = Vec::new();
        blocks.push(ContentBlock::Text { text: t });
        let m = ConversationMessage { role: MessageRole::User, blocks, usage: None };
        assert(m@.blocks =~= seq![BlockView::Text { text: text@ }]);
        m
    }

    /// A tool message carrying one tool result.
    pub fn tool_result(tool_use_id: &str, tool_name: &str, output: &str, is_error: bool) -> (m:
        Self)
        ensures
            m.role == MessageRole::Tool,
            m@.blocks == seq![
                BlockView::ToolResult {
                    tool_use_id: tool_use_id@,
                    tool_name: tool_name@,
                    output: output@,
                    is_error,
                },
            ],
            m.usage is None,
    {
        let mut blocks: Vec<ContentBlock> = Vec::new();
        blocks.push(
            ContentBlock::ToolResult {
                tool_use_id: crate::text::string_of(&chars_of(tool_use_id)),
                tool_name: crate::text::string_of(&chars_of(tool_name)),
                output: crate::text::string_of(&chars_of(output)),
                is_error,
            },
        );
        let m = ConversationMessage { role: MessageRole::Tool, blocks, usage: None };
        assert(m@.blocks =~= seq![
            BlockView::ToolResult {
                tool_use_id: tool_use_id@,
                tool_name: tool_name@,
                output: output@,
                is_error,
            },
        ]);
        m
    }

    /// An assistant message made of `blocks`.
    pub fn assistant(blocks: Vec<ContentBlock>) -> (m: Self)
        ensures
            m.role == MessageRole::Assistant,
            m.blocks@ == blocks@,
            m@.blocks == blocks_view(blocks@),
            m.usage is None,
    {
        ConversationMessage { role: MessageRole::Assistant, blocks, usage: None }
    }

    /// An assistant message made of `blocks`, with the usage reported for it.
    pub fn assistant_with_usage(blocks: Vec<ContentBlock>, usage: Option<TokenUsage>) -> (m: Self)
        ensures
            m.role == MessageRole::Assistant,
            m.blocks@ == blocks@,
            m.usage == usage,
    {
        ConversationMessage { role: MessageRole::Assistant, blocks, usage }
    }
}

impl Session {
    /// An empty session at the current format version.
    pub fn new() -> (s: Self)
        ensures
            s.version == 2,
            s.model is None,
            s.title is None,
            s.messages@.len() == 0,
            s.child_sessions@.len() == 0,
    {
        Session {
            version: 2,
            model: None,
            title: None,
            messages: Vec::new(),
            child_sessions: Vec::new(),
        }
    }
}

/// `serde_json::Error`, carried by session errors.
#[verifier::external_type_specification]
#[verifier::external_body]
pub struct ExJsonError(serde_json::Error);

/// Why a session could not be stored or read.
#[derive(Debug)]
pub enum SessionError {
    Io(std::io::Error),
    Json(serde_json::Error),
    Format(String),
}

} // verus!
