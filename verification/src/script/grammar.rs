//! The syntax tree of a crawl script, and the limits a script must respect.
use vstd::prelude::*;

use crate::text::{chars_of, eq_str};

verus! {

/// The script format version this runtime reads.
pub const SCHEMA_VERSION: u32 = 1;

/// A whole script.
#[derive(Debug)]
pub struct ScriptDefinition {
    pub schema_version: u32,
    pub name: Option<String>,
    pub steps: Vec<ScriptNode>,
}

/// One step of a script. JSON values (a tool's input, a literal) are held as
/// their compact JSON text.
#[derive(Debug)]
pub enum ScriptNode {
    ToolCall { tool: String, input: String, output: Option<String> },
    Assign { variable: String, value: Expression },
    Collect { value: Expression },
    Yield { value: Expression },
    ForLoop { variable: String, from: Expression, to: Expression, steps: Vec<ScriptNode> },
    ForEach { variable: String, iterable: Expression, steps: Vec<ScriptNode> },
    WhileLoop { condition: Expression, steps: Vec<ScriptNode> },
    IfElse {
        condition: Expression,
        then_steps: Vec<ScriptNode>,
        else_steps: Option<Vec<ScriptNode>>,
    },
    TryCatch {
        try_steps: Vec<ScriptNode>,
        catch_steps: Option<Vec<ScriptNode>>,
        finally_steps: Option<Vec<ScriptNode>>,
        error_var: Option<String>,
    },
    Parallel { branches: Vec<Vec<ScriptNode>> },
}

/// A value computed while a script runs.
#[derive(Debug)]
pub enum Expression {
    /// A JSON value, as compact JSON text.
    Literal(String),
    Variable(String),
    JsEval(String),
    FieldAccess { object: Box<Expression>, field: String },
    ArrayIndex { array: Box<Expression>, index: Box<Expression> },
}

/// Limits a script must respect.
#[derive(Debug, Clone, Copy, PartialEq, Eq)]
pub struct ScriptLimits {
    pub max_steps: usize,
    pub max_timeout_secs: u64,
    pub max_output_bytes: usize,
    pub max_script_size_bytes: usize,
    pub max_parallel_branches: usize,
    pub max_nesting_depth: usize,
    pub per_step_timeout_secs: u64,
}

/// The tools a script may call.
pub open spec fn allowed_tools() -> Seq<Seq<char>> {
    seq![
        "navigate"@,
        "click"@,
        "click_at"@,
        "fill_form"@,
        "page_map"@,
        "read_content"@,
        "screenshot"@,
        "go_back"@,
        "scroll"@,
        "wait"@,
        "select_option"@,
        "execute_js"@,
        "hover"@,
        "press_key"@,
        "switch_tab"@,
        "list_resources"@,
        "save_file"@,
    ]
}

/// Whether a script may call `tool`.
pub fn is_allowed_tool(tool: &str) -> (r: bool)
    ensures
        r == allowed_tools().contains(tool@),
{
    let t = chars_of(tool);
    let names = [
        "navigate",
        "click",
        "click_at",
        "fill_form",
        "page_map",
        "read_content",
        "screenshot",
        "go_back",
        "scroll",
        "wait",
        "select_option",
        "execute_js",
        "hover",
        "press_key",
        "switch_tab",
        "list_resources",
        "save_file",
    ];
    let ghost spec_names = allowed_tools();
    assert(names@.map_values(|n: &str| n@) =~= spec_names);
    let mut i: usize = 0;
    while i < names.len()
        invariant
            0 <= i <= names.len(),
            t@ == tool@,
            names@.map_values(|n: &str| n@) == spec_names,
            spec_names == allowed_tools(),
            forall|k: int| 0 <= k < i ==> spec_names[k] != tool@,
        decreases names.len() - i,
    {
        assert(spec_names[i as int] == names@[i as int]@);
        if eq_str(&t, names[i]) {
            assert(spec_names[i as int] == tool@);
            return true;
        }
        i += 1;
    }
    false
}

} // verus!
