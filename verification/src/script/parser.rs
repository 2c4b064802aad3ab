//! Checking crawl scripts: the JSON text a script serialises to (its size is
//! limited), and the validation rules: known tools, bounded nesting and
//! parallelism, non-empty bodies, and variables defined before use.
use vstd::prelude::*;

use super::error::{error_views, ScriptParseError, ValidationError, ValidationErrorView};
use super::grammar::{
    allowed_tools, is_allowed_tool, Expression, ScriptDefinition, ScriptLimits, ScriptNode,
    SCHEMA_VERSION,
};
use crate::text::{
    chars_of, contains_vec_of, dec, push_dec, push_str, string_of, utf8_len, utf8_len_of,
    vviews,
};

verus! {

// ---------------------------------------------------------------------------
// The JSON text of a script
// ---------------------------------------------------------------------------

/// The lower-case hexadecimal digit for `d`, below 16.
pub open spec fn hex_digit(d: int) -> char {
    seq!['0', '1', '2', '3', '4', '5', '6', '7', '8', '9', 'a', 'b', 'c', 'd', 'e', 'f'][d]
}

/// One character as it stands inside a JSON string: the quote and the
/// backslash escaped, the five control characters with a short escape
/// written so, other control characters as `\u00XX`, the rest as it is.
pub open spec fn json_escaped_char(c: char) -> Seq<char> {
    if c == '"' {
        seq!['\\', '"']
    } else if c == '\\' {
        seq!['\\', '\\']
    } else if c == '\u{8}' {
        seq!['\\', 'b']
    } else if c == '\u{c}' {
        seq!['\\', 'f']
    } else if c == '\n' {
        seq!['\\', 'n']
    } else if c == '\r' {
        seq!['\\', 'r']
    } else if c == '\t' {
        seq!['\\', 't']
    } else if (c as int) < 0x20 {
        seq!['\\', 'u', '0', '0', hex_digit((c as int) / 16), hex_digit((c as int) % 16)]
    } else {
        seq![c]
    }
}

/// The characters of `s`, each as it stands inside a JSON string.
pub open spec fn json_escaped(s: Seq<char>) -> Seq<char>
    decreases s.len(),
{
    if s.len() == 0 {
        seq![]
    } else {
        json_escaped(s.drop_last()) + json_escaped_char(s.last())
    }
}

/// The JSON string literal for `s`: its escaped characters in quotes.
pub open spec fn json_quoted(s: Seq<char>) -> Seq<char> {
    seq!['"'] + json_escaped(s) + seq!['"']
}

/// `serde_json::to_string` of a string: `s` in quotes, each character
/// escaped as `serde_json`'s writer escapes it (its `ESCAPE` table and
/// `write_char_escape`). Serialising a `str` does not fail.
#[verifier::external_body]
pub(crate) fn json_quote(s: &str) -> (r: String)
    ensures
        r@ == json_quoted(s@),
{
    match serde_json::to_string(s) {
        Ok(t) => t,
        Err(_) => String::new(),
    }
}

/// An optional string as JSON: the string, or `null`.
pub open spec fn opt_json(o: Option<String>) -> Seq<char> {
    match o {
        Some(s) => json_quoted(s@),
        None => "null"@,
    }
}

/// The JSON text of an expression, keys in ascending order.
pub open spec fn expr_json(e: Expression) -> Seq<char>
    decreases e,
{
    match e {
        Expression::Literal(v) => "{\"kind\":\"literal\",\"value\":"@ + v@ + "}"@,
        Expression::Variable(n) => "{\"kind\":\"variable\",\"value\":"@ + json_quoted(n@) + "}"@,
        Expression::JsEval(c) => "{\"kind\":\"js_eval\",\"value\":"@ + json_quoted(c@) + "}"@,
        Expression::FieldAccess { object, field } => "{\"field\":"@ + json_quoted(field@)
            + ",\"kind\":\"field_access\",\"object\":"@ + expr_json(*object) + "}"@,
        Expression::ArrayIndex { array, index } => "{\"array\":"@ + expr_json(*array)
            + ",\"index\":"@ + expr_json(*index) + ",\"kind\":\"array_index\"}"@,
    }
}

/// The JSON text of a step, keys in ascending order.
pub open spec fn node_json(n: ScriptNode) -> Seq<char>
    decreases n, 2nat,
{
    match n {
        ScriptNode::ToolCall { tool, input, output } => "{\"input\":"@ + input@ + ",\"output\":"@
            + opt_json(output) + ",\"tool\":"@ + json_quoted(tool@) + ",\"type\":\"tool_call\"}"@,
        ScriptNode::Assign { variable, value } => "{\"type\":\"assign\",\"value\":"@ + expr_json(
            value,
        ) + ",\"variable\":"@ + json_quoted(variable@) + "}"@,
        ScriptNode::Collect { value } => "{\"type\":\"collect\",\"value\":"@ + expr_json(value)
            + "}"@,
        ScriptNode::Yield { value } => "{\"type\":\"yield\",\"value\":"@ + expr_json(value) + "}"@,
        ScriptNode::ForLoop { variable, from, to, steps } => "{\"from\":"@ + expr_json(from)
            + ",\"steps\":"@ + list_json(steps@) + ",\"to\":"@ + expr_json(to)
            + ",\"type\":\"for_loop\",\"variable\":"@ + json_quoted(variable@) + "}"@,
        ScriptNode::ForEach { variable, iterable, steps } => "{\"iterable\":"@ + expr_json(
            iterable,
        ) + ",\"steps\":"@ + list_json(steps@) + ",\"type\":\"for_each\",\"variable\":"@
            + json_quoted(variable@) + "}"@,
        ScriptNode::WhileLoop { condition, steps } => "{\"condition\":"@ + expr_json(condition)
            + ",\"steps\":"@ + list_json(steps@) + ",\"type\":\"while_loop\"}"@,
        ScriptNode::IfElse { condition, then_steps, else_steps } => "{\"condition\":"@
            + expr_json(condition) + ",\"else_steps\":"@ + match else_steps {
            Some(s) => list_json(s@),
            None => "null"@,
        } + ",\"then_steps\":"@ + list_json(then_steps@) + ",\"type\":\"if_else\"}"@,
        ScriptNode::TryCatch { try_steps, catch_steps, finally_steps, error_var } =>
            "{\"catch_steps\":"@ + match catch_steps {
            Some(s) => list_json(s@),
            None => "null"@,
        } + ",\"error_var\":"@ + opt_json(error_var) + ",\"finally_steps\":"@ + match finally_steps {
            Some(s) => list_json(s@),
            None => "null"@,
        } + ",\"try_steps\":"@ + list_json(try_steps@) + ",\"type\":\"try_catch\"}"@,
        ScriptNode::Parallel { branches } => "{\"branches\":"@ + branches_json(branches@)
            + ",\"type\":\"parallel\"}"@,
    }
}

/// A list of steps as a JSON array.
pub open spec fn list_json(s: Seq<ScriptNode>) -> Seq<char>
    decreases s, s.len() + 1,
{
    "["@ + items_json(s, 0) + "]"@
}

/// The steps from index `i` on, separated by commas.
pub open spec fn items_json(s: Seq<ScriptNode>, i: int) -> Seq<char>
    decreases s, s.len() - i,
{
    if 0 <= i < s.len() {
        if i + 1 < s.len() {
            node_json(s[i]) + ","@ + items_json(s, i + 1)
        } else {
            node_json(s[i])
        }
    } else {
        seq![]
    }
}

/// Parallel branches as a JSON array of arrays.
pub open spec fn branches_json(b: Seq<Vec<ScriptNode>>) -> Seq<char>
    decreases b, b.len() + 1,
{
    "["@ + branch_items_json(b, 0) + "]"@
}

/// The branches from index `i` on, separated by commas.
pub open spec fn branch_items_json(b: Seq<Vec<ScriptNode>>, i: int) -> Seq<char>
    decreases b, b.len() - i,
{
    if 0 <= i < b.len() {
        if i + 1 < b.len() {
            list_json(b[i]@) + ","@ + branch_items_json(b, i + 1)
        } else {
            list_json(b[i]@)
        }
    } else {
        seq![]
    }
}

/// The compact JSON text of a whole script, keys in ascending order.
pub open spec fn script_json(d: ScriptDefinition) -> Seq<char> {
    "{\"name\":"@ + opt_json(d.name) + ",\"schema_version\":"@ + dec(d.schema_version as nat)
        + ",\"steps\":"@ + list_json(d.steps@) + "}"@
}

/// Appends `s` as a JSON string.
fn push_quoted(out: &mut Vec<char>, s: &str)
    ensures
        final(out)@ == old(out)@ + json_quoted(s@),
{
    let q = json_quote(s);
    push_str(out, q.as_str());
}

/// Appends an optional string as JSON.
fn push_opt(out: &mut Vec<char>, o: &Option<String>)
    ensures
        final(out)@ == old(out)@ + opt_json(*o),
{
    match o {
        Some(s) => push_quoted(out, s.as_str()),
        None => push_str(out, "null"),
    }
}

/// Appends the JSON text of `e`.
fn push_expr(out: &mut Vec<char>, e: &Expression)
    ensures
        final(out)@ == old(out)@ + expr_json(*e),
    decreases e,
{
    let ghost o0 = out@;
    match e {
        Expression::Literal(v) => {
            push_str(out, "{\"kind\":\"literal\",\"value\":");
            push_str(out, v.as_str());
            push_str(out, "}");
        },
        Expression::Variable(n) => {
            push_str(out, "{\"kind\":\"variable\",\"value\":");
            push_quoted(out, n.as_str());
            push_str(out, "}");
        },
        Expression::JsEval(c) => {
            push_str(out, "{\"kind\":\"js_eval\",\"value\":");
            push_quoted(out, c.as_str());
            push_str(out, "}");
        },
        Expression::FieldAccess { object, field } => {
            push_str(out, "{\"field\":");
            push_quoted(out, field.as_str());
            push_str(out, ",\"kind\":\"field_access\",\"object\":");
            push_expr(out, object);
            push_str(out, "}");
        },
        Expression::ArrayIndex { array, index } => {
            push_str(out, "{\"array\":");
            push_expr(out, array);
            push_str(out, ",\"index\":");
            push_expr(out, index);
            push_str(out, ",\"kind\":\"array_index\"}");
        },
    }
    assert(out@ =~= o0 + expr_json(*e));
}

/// Appends the JSON text of `n`.
#[verifier::spinoff_prover]
#[verifier::rlimit(40)]
fn push_node(out: &mut Vec<char>, n: &ScriptNode)
    ensures
        final(out)@ == old(out)@ + node_json(*n),
    decreases n, 2nat,
{
    let ghost o0 = out@;
    match n {
        ScriptNode::ToolCall { tool, input, output } => {
            push_str(out, "{\"input\":");
            push_str(out, input.as_str());
            push_str(out, ",\"output\":");
            push_opt(out, output);
            push_str(out, ",\"tool\":");
            push_quoted(out, tool.as_str());
            push_str(out, ",\"type\":\"tool_call\"}");
            assert(out@ =~= o0 + node_json(*n));
        },
        ScriptNode::Assign { variable, value } => {
            push_str(out, "{\"type\":\"assign\",\"value\":");
            push_expr(out, value);
            push_str(out, ",\"variable\":");
            push_quoted(out, variable.as_str());
            push_str(out, "}");
            assert(out@ =~= o0 + node_json(*n));
        },
        ScriptNode::Collect { value } => {
            push_str(out, "{\"type\":\"collect\",\"value\":");
            push_expr(out, value);
            push_str(out, "}");
            assert(out@ =~= o0 + node_json(*n));
        },
        ScriptNode::Yield { value } => {
            push_str(out, "{\"type\":\"yield\",\"value\":");
            push_expr(out, value);
            push_str(out, "}");
            assert(out@ =~= o0 + node_json(*n));
        },
        ScriptNode::ForLoop { variable, from, to, steps } => {
            push_str(out, "{\"from\":");
            push_expr(out, from);
            push_str(out, ",\"steps\":");
            push_list(out, steps);
            push_str(out, ",\"to\":");
            push_expr(out, to);
            push_str(out, ",\"type\":\"for_loop\",\"variable\":");
            push_quoted(out, variable.as_str());
            push_str(out, "}");
            assert(out@ =~= o0 + node_json(*n));
        },
        ScriptNode::ForEach { variable, iterable, steps } => {
            push_str(out, "{\"iterable\":");
            push_expr(out, iterable);
            push_str(out, ",\"steps\":");
            push_list(out, steps);
            push_str(out, ",\"type\":\"for_each\",\"variable\":");
            push_quoted(out, variable.as_str());
            push_str(out, "}");
            assert(out@ =~= o0 + node_json(*n));
        },
        ScriptNode::WhileLoop { condition, steps } => {
            push_str(out, "{\"condition\":");
            push_expr(out, condition);
            push_str(out, ",\"steps\":");
            push_list(out, steps);
            push_str(out, ",\"type\":\"while_loop\"}");
            assert(out@ =~= o0 + node_json(*n));
        },
        ScriptNode::IfElse { condition, then_steps, else_steps } => {
            push_str(out, "{\"condition\":");
            push_expr(out, condition);
            push_str(out, ",\"else_steps\":");
            match else_steps {
                Some(s) => push_list(out, s),
                None => push_str(out, "null"),
            }
            push_str(out, ",\"then_steps\":");
            push_list(out, then_steps);
            push_str(out, ",\"type\":\"if_else\"}");
            assert(out@ =~= o0 + node_json(*n));
        },
        ScriptNode::TryCatch { try_steps, catch_steps, finally_steps, error_var } => {
            push_str(out, "{\"catch_steps\":");
            match catch_steps {
                Some(s) => push_list(out, s),
                None => push_str(out, "null"),
            }
            push_str(out, ",\"error_var\":");
            push_opt(out, error_var);
            push_str(out, ",\"finally_steps\":");
            match finally_steps {
                Some(s) => push_list(out, s),
                None => push_str(out, "null"),
            }
            push_str(out, ",\"try_steps\":");
            push_list(out, try_steps);
            push_str(out, ",\"type\":\"try_catch\"}");
            assert(out@ =~= o0 + node_json(*n));
        },
        ScriptNode::Parallel { branches } => {
            push_str(out, "{\"branches\":");
            push_branches(out, branches);
            push_str(out, ",\"type\":\"parallel\"}");
            assert(out@ =~= o0 + node_json(*n));
        },
    }
}

/// Appends a list of steps as a JSON array.
fn push_list(out: &mut Vec<char>, s: &Vec<ScriptNode>)
    ensures
        final(out)@ == old(out)@ + list_json(s@),
    decreases s@, s@.len() + 1,
{
    let ghost o0 = out@;
    push_str(out, "[");
    let ghost o1 = out@;
    let mut i: usize = 0;
    while i < s.len()
        invariant
            0 <= i <= s.len(),
            o1 == o0 + "["@,
            out@ + items_json(s@, i as int) == o1 + items_json(s@, 0),
        decreases s.len() - i,
    {
        let ghost before = out@;
        push_node(out, &s[i]);
        if i + 1 < s.len() {
            push_str(out, ",");
            assert(out@ + items_json(s@, i + 1) =~= before + items_json(s@, i as int));
        } else {
            assert(items_json(s@, i + 1) =~= Seq::<char>::empty());
            assert(out@ + items_json(s@, i + 1) =~= before + items_json(s@, i as int));
        }
        i += 1;
    }
    assert(items_json(s@, s.len() as int) =~= Seq::<char>::empty());
    push_str(out, "]");
    assert(out@ =~= o0 + list_json(s@));
}

/// Appends parallel branches as a JSON array of arrays.
fn push_branches(out: &mut Vec<char>, b: &Vec<Vec<ScriptNode>>)
    ensures
        final(out)@ == old(out)@ + branches_json(b@),
    decreases b@, b@.len() + 1,
{
    let ghost o0 = out@;
    push_str(out, "[");
    let ghost o1 = out@;
    let mut i: usize = 0;
    while i < b.len()
        invariant
            0 <= i <= b.len(),
            o1 == o0 + "["@,
            out@ + branch_items_json(b@, i as int) == o1 + branch_items_json(b@, 0),
        decreases b.len() - i,
    {
        let ghost before = out@;
        push_list(out, &b[i]);
        if i + 1 < b.len() {
            push_str(out, ",");
            assert(out@ + branch_items_json(b@, i + 1) =~= before + branch_items_json(
                b@,
                i as int,
            ));
        } else {
            assert(branch_items_json(b@, i + 1) =~= Seq::<char>::empty());
            assert(out@ + branch_items_json(b@, i + 1) =~= before + branch_items_json(
                b@,
                i as int,
            ));
        }
        i += 1;
    }
    assert(branch_items_json(b@, b.len() as int) =~= Seq::<char>::empty());
    push_str(out, "]");
    assert(out@ =~= o0 + branches_json(b@));
}

/// The compact JSON text of `script`, keys in ascending order, as the script
/// is serialised for the size limit.
pub fn script_json_text(script: &ScriptDefinition) -> (r: String)
    ensures
        r@ == script_json(*script),
{
    let mut out = chars_of("{\"name\":");
    push_opt(&mut out, &script.name);
    push_str(&mut out, ",\"schema_version\":");
    push_dec(&mut out, script.schema_version as u64);
    push_str(&mut out, ",\"steps\":");
    push_list(&mut out, &script.steps);
    push_str(&mut out, "}");
    string_of(&out)
}

// ---------------------------------------------------------------------------
// Validation
// ---------------------------------------------------------------------------

/// Number of steps in a step and everything nested in it.
pub open spec fn node_size(n: ScriptNode) -> nat
    decreases n, 2nat,
{
    match n {
        ScriptNode::ForLoop { steps, .. } => 1 + list_size(steps@),
        ScriptNode::ForEach { steps, .. } => 1 + list_size(steps@),
        ScriptNode::WhileLoop { steps, .. } => 1 + list_size(steps@),
        ScriptNode::IfElse { then_steps, else_steps, .. } => 1 + list_size(then_steps@)
            + match else_steps {
            Some(s) => list_size(s@),
            None => 0,
        },
        ScriptNode::TryCatch { try_steps, catch_steps, finally_steps, .. } => 1 + list_size(
            try_steps@,
        ) + match catch_steps {
            Some(s) => list_size(s@),
            None => 0,
        } + match finally_steps {
            Some(s) => list_size(s@),
            None => 0,
        },
        ScriptNode::Parallel { branches } => 1 + branches_size(branches@, 0),
        _ => 1,
    }
}

/// Number of steps in a list of steps, nested ones included.
pub open spec fn list_size(s: Seq<ScriptNode>) -> nat
    decreases s, s.len() + 1,
{
    items_size(s, 0)
}

/// Number of steps from index `i` on, nested ones included.
pub open spec fn items_size(s: Seq<ScriptNode>, i: int) -> nat
    decreases s, s.len() - i,
{
    if 0 <= i < s.len() {
        node_size(s[i]) + items_size(s, i + 1)
    } else {
        0
    }
}

/// Number of steps in the branches from index `i` on.
pub open spec fn branches_size(b: Seq<Vec<ScriptNode>>, i: int) -> nat
    decreases b, b.len() - i,
{
    if 0 <= i < b.len() {
        list_size(b[i]@) + branches_size(b, i + 1)
    } else {
        0
    }
}

/// Errors of an expression: every variable it reads must be in scope.
pub open spec fn expr_errors(e: Expression, scope: Seq<Seq<char>>, ctx: Seq<char>) -> Seq<
    ValidationErrorView,
>
    decreases e,
{
    match e {
        Expression::Literal(_) => seq![],
        Expression::JsEval(_) => seq![],
        Expression::Variable(name) => if scope.contains(name@) {
            seq![]
        } else {
            seq![ValidationErrorView::UndefinedVariable { name: name@, context: ctx }]
        },
        Expression::FieldAccess { object, field } => expr_errors(
            *object,
            scope,
            ctx + " field access `"@ + field@ + "`"@,
        ),
        Expression::ArrayIndex { array, index } => expr_errors(
            *array,
            scope,
            ctx + " array access"@,
        ) + expr_errors(*index, scope, ctx + " array index"@),
    }
}

/// The error for nesting deeper than allowed, if `depth` is too deep.
pub open spec fn nesting_error(depth: nat, lim: ScriptLimits) -> Seq<ValidationErrorView> {
    if depth > lim.max_nesting_depth {
        seq![ValidationErrorView::ExcessiveNesting { depth, max: lim.max_nesting_depth as nat }]
    } else {
        seq![]
    }
}

/// `for_loop `v` <what>`-style context: `kind`, the variable in backticks, `what`.
pub open spec fn var_context(kind: Seq<char>, v: Seq<char>, what: Seq<char>) -> Seq<char> {
    kind + " `"@ + v + "` "@ + what
}

/// Errors of a step at nesting `depth`, and the scope after it: a tool call's
/// output and an assigned variable come into scope for the following steps.
pub open spec fn node_errors(n: ScriptNode, depth: nat, lim: ScriptLimits, scope: Seq<Seq<char>>) -> (
    Seq<ValidationErrorView>,
    Seq<Seq<char>>,
)
    decreases n, 4nat,
{
    match n {
        ScriptNode::ToolCall { tool, output, .. } => (
            if allowed_tools().contains(tool@) {
                seq![]
            } else {
                seq![ValidationErrorView::UnknownTool { tool: tool@ }]
            },
            match output {
                Some(o) => scope.push(o@),
                None => scope,
            },
        ),
        ScriptNode::Assign { variable, value } => (
            expr_errors(value, scope, "assignment to `"@ + variable@ + "`"@),
            scope.push(variable@),
        ),
        ScriptNode::Collect { value } => (expr_errors(value, scope, "collect expression"@), scope),
        ScriptNode::Yield { value } => (expr_errors(value, scope, "yield expression"@), scope),
        ScriptNode::ForLoop { variable, from, to, steps } => (
            expr_errors(from, scope, var_context("for_loop"@, variable@, "from"@)) + expr_errors(
                to,
                scope,
                var_context("for_loop"@, variable@, "to"@),
            ) + nested_errors(
                steps@,
                depth + 1,
                lim,
                scope,
                variable@,
                var_context("for_loop"@, variable@, "body"@),
            ),
            scope,
        ),
        ScriptNode::ForEach { variable, iterable, steps } => (
            expr_errors(iterable, scope, var_context("for_each"@, variable@, "iterable"@))
                + nested_errors(
                steps@,
                depth + 1,
                lim,
                scope,
                variable@,
                var_context("for_each"@, variable@, "body"@),
            ),
            scope,
        ),
        ScriptNode::WhileLoop { condition, steps } => (
            expr_errors(condition, scope, "while_loop condition"@) + nested_errors(
                steps@,
                depth + 1,
                lim,
                scope,
                seq![],
                "while_loop body"@,
            ),
            scope,
        ),
        ScriptNode::IfElse { condition, then_steps, else_steps } => (
            expr_errors(condition, scope, "if_else condition"@) + nested_errors(
                then_steps@,
                depth + 1,
                lim,
                scope,
                seq![],
                "if_else then_steps"@,
            ) + match else_steps {
                Some(s) => nested_errors(s@, depth + 1, lim, scope, seq![], "if_else else_steps"@),
                None => seq![],
            },
            scope,
        ),
        ScriptNode::TryCatch { try_steps, catch_steps, finally_steps, error_var } => (
            nested_errors(try_steps@, depth + 1, lim, scope, seq![], "try_catch try_steps"@)
                + match catch_steps {
                Some(s) => nested_errors(
                    s@,
                    depth + 1,
                    lim,
                    scope,
                    match error_var {
                        Some(v) => v@,
                        None => seq![],
                    },
                    "try_catch catch_steps"@,
                ),
                None => seq![],
            } + match finally_steps {
                Some(s) => nested_errors(s@, depth + 1, lim, scope, seq![], "try_catch finally_steps"@),
                None => seq![],
            },
            scope,
        ),
        ScriptNode::Parallel { branches } => (
            (if branches@.len() > lim.max_parallel_branches {
                seq![
                    ValidationErrorView::TooManyParallelBranches {
                        branch_count: branches@.len(),
                        max: lim.max_parallel_branches as nat,
                    },
                ]
            } else {
                seq![]
            }) + (if branches@.len() == 0 {
                seq![ValidationErrorView::EmptySteps { context: "parallel branches"@ }]
            } else {
                seq![]
            }) + nesting_error(depth + 1, lim) + branch_errors(branches@, 0, depth + 1, lim, scope),
            scope,
        ),
    }
}

/// Errors of a nested body: too deep a nesting, then the body's own errors,
/// checked with `bound` (when not empty) added to a copy of the scope.
pub open spec fn nested_errors(
    s: Seq<ScriptNode>,
    next_depth: nat,
    lim: ScriptLimits,
    scope: Seq<Seq<char>>,
    bound: Seq<char>,
    ctx: Seq<char>,
) -> Seq<ValidationErrorView>
    decreases s, s.len() + 3,
{
    nesting_error(next_depth, lim) + steps_errors(
        s,
        next_depth,
        lim,
        if bound.len() > 0 {
            scope.push(bound)
        } else {
            scope
        },
        ctx,
    ).0
}

/// Errors of a list of steps, and the scope after it: an empty list is an
/// error in context `ctx`.
pub open spec fn steps_errors(
    s: Seq<ScriptNode>,
    depth: nat,
    lim: ScriptLimits,
    scope: Seq<Seq<char>>,
    ctx: Seq<char>,
) -> (Seq<ValidationErrorView>, Seq<Seq<char>>)
    decreases s, s.len() + 2,
{
    if s.len() == 0 {
        (seq![ValidationErrorView::EmptySteps { context: ctx }], scope)
    } else {
        steps_from(s, 0, depth, lim, scope)
    }
}

/// Errors of the steps from index `i` on, each seeing the scope the earlier
/// ones left, and the final scope.
pub open spec fn steps_from(
    s: Seq<ScriptNode>,
    i: int,
    depth: nat,
    lim: ScriptLimits,
    scope: Seq<Seq<char>>,
) -> (Seq<ValidationErrorView>, Seq<Seq<char>>)
    decreases s, s.len() - i,
{
    if 0 <= i < s.len() {
        let (e1, sc1) = node_errors(s[i], depth, lim, scope);
        let (e2, sc2) = steps_from(s, i + 1, depth, lim, sc1);
        (e1 + e2, sc2)
    } else {
        (seq![], scope)
    }
}

/// Errors of the parallel branches from index `i` on, each checked with its
/// own copy of the scope.
pub open spec fn branch_errors(
    b: Seq<Vec<ScriptNode>>,
    i: int,
    depth: nat,
    lim: ScriptLimits,
    scope: Seq<Seq<char>>,
) -> Seq<ValidationErrorView>
    decreases b, b.len() - i,
{
    if 0 <= i < b.len() {
        steps_errors(b[i]@, depth, lim, scope, "parallel branch "@ + dec(i as nat)).0
            + branch_errors(b, i + 1, depth, lim, scope)
    } else {
        seq![]
    }
}

/// The size of a script for the size limit: the UTF-8 length of its JSON text
/// (capped at `usize::MAX`).
pub open spec fn script_size(d: ScriptDefinition) -> nat {
    let n = utf8_len(script_json(d));
    if n <= usize::MAX {
        n
    } else {
        usize::MAX as nat
    }
}

/// All errors of a script, in the order they are found: the format version,
/// the size, an empty top level, then the steps.
pub open spec fn script_errors(d: ScriptDefinition, lim: ScriptLimits) -> Seq<ValidationErrorView> {
    (if d.schema_version != SCHEMA_VERSION {
        seq![
            ValidationErrorView::WrongSchemaVersion {
                found: d.schema_version,
                expected: SCHEMA_VERSION,
            },
        ]
    } else {
        seq![]
    }) + (if script_size(d) > lim.max_script_size_bytes {
        seq![
            ValidationErrorView::ScriptTooLarge {
                size_bytes: script_size(d),
                max_bytes: lim.max_script_size_bytes as nat,
            },
        ]
    } else {
        seq![]
    }) + (if d.steps@.len() == 0 {
        seq![ValidationErrorView::EmptySteps { context: "top-level script steps"@ }]
    } else {
        seq![]
    }) + steps_errors(d.steps@, 0, lim, seq![], "top-level script steps"@).0
}

/// A copy of a scope.
fn copy_scope(scope: &Vec<Vec<char>>) -> (r: Vec<Vec<char>>)
    ensures
        vviews(r@) == vviews(scope@),
{
    let mut r: Vec<Vec<char>> = Vec::new();
    let mut i: usize = 0;
    while i < scope.len()
        invariant
            0 <= i <= scope.len(),
            vviews(r@) == vviews(scope@).take(i as int),
        decreases scope.len() - i,
    {
        let ghost before = vviews(r@);
        r.push(scope[i].clone());
        assert(vviews(r@) =~= before.push(scope@[i as int]@));
        assert(vviews(scope@).take(i + 1) =~= vviews(scope@).take(i as int).push(scope@[i as int]@));
        i += 1;
    }
    assert(vviews(scope@).take(scope.len() as int) =~= vviews(scope@));
    r
}

/// `kind `v` what` as characters.
fn var_context_vec(kind: &str, v: &str, what: &str) -> (r: Vec<char>)
    ensures
        r@ == var_context(kind@, v@, what@),
{
    let mut r = chars_of(kind);
    push_str(&mut r, " `");
    push_str(&mut r, v);
    push_str(&mut r, "` ");
    push_str(&mut r, what);
    r
}

/// Records the errors of expression `e`.
fn validate_expression(e: &Expression, scope: &Vec<Vec<char>>, ctx: &Vec<char>, errors: &mut Vec<ValidationError>)
    ensures
        error_views(final(errors)@) == error_views(old(errors)@) + expr_errors(*e, vviews(scope@), ctx@),
    decreases e,
{
    let ghost e0 = error_views(errors@);
    match e {
        Expression::Literal(_) => {
            assert(error_views(errors@) =~= e0 + expr_errors(*e, vviews(scope@), ctx@));
        },
        Expression::JsEval(_) => {
            assert(error_views(errors@) =~= e0 + expr_errors(*e, vviews(scope@), ctx@));
        },
        Expression::Variable(name) => {
            let n = chars_of(name.as_str());
            if !contains_vec_of(scope, &n) {
                errors.push(
                    ValidationError::UndefinedVariable {
                        name: string_of(&n),
                        context: string_of(ctx),
                    },
                );
            }
            assert(error_views(errors@) =~= e0 + expr_errors(*e, vviews(scope@), ctx@));
        },
        Expression::FieldAccess { object, field } => {
            let mut c = ctx.clone();
            push_str(&mut c, " field access `");
            push_str(&mut c, field.as_str());
            push_str(&mut c, "`");
            validate_expression(object, scope, &c, errors);
        },
        Expression::ArrayIndex { array, index } => {
            let mut c1 = ctx.clone();
            push_str(&mut c1, " array access");
            validate_expression(array, scope, &c1, errors);
            let mut c2 = ctx.clone();
            push_str(&mut c2, " array index");
            validate_expression(index, scope, &c2, errors);
            assert(error_views(errors@) =~= e0 + expr_errors(*e, vviews(scope@), ctx@));
        },
    }
}

/// Records a nesting error if `depth` is too deep.
fn check_nesting(depth: usize, lim: &ScriptLimits, errors: &mut Vec<ValidationError>)
    ensures
        error_views(final(errors)@) == error_views(old(errors)@) + nesting_error(depth as nat, *lim),
{
    let ghost e0 = error_views(errors@);
    if depth > lim.max_nesting_depth {
        errors.push(ValidationError::ExcessiveNesting { depth, max: lim.max_nesting_depth });
    }
    assert(error_views(errors@) =~= e0 + nesting_error(depth as nat, *lim));
}

/// Records the errors of step `n` at nesting `depth` and updates the scope.
#[verifier::spinoff_prover]
#[verifier::rlimit(60)]
fn validate_node(
    n: &ScriptNode,
    depth: usize,
    lim: &ScriptLimits,
    scope: &mut Vec<Vec<char>>,
    errors: &mut Vec<ValidationError>,
)
    requires
        depth + node_size(*n) <= usize::MAX,
    ensures
        error_views(final(errors)@) == error_views(old(errors)@) + node_errors(
            *n,
            depth as nat,
            *lim,
            vviews(old(scope)@),
        ).0,
        vviews(final(scope)@) == node_errors(*n, depth as nat, *lim, vviews(old(scope)@)).1,
    decreases n, 4nat,
{
    let ghost e0 = error_views(errors@);
    let ghost sc = vviews(scope@);
    match n {
        ScriptNode::ToolCall { tool, output, .. } => {
            if !is_allowed_tool(tool.as_str()) {
                errors.push(ValidationError::UnknownTool { tool: string_of(&chars_of(tool.as_str())) });
            }
            match output {
                Some(o) => {
                    scope.push(chars_of(o.as_str()));
                    assert(vviews(scope@) =~= sc.push(o@));
                },
                None => {},
            }
            assert(error_views(errors@) =~= e0 + node_errors(*n, depth as nat, *lim, sc).0);
        },
        ScriptNode::Assign { variable, value } => {
            let mut c = chars_of("assignment to `");
            push_str(&mut c, variable.as_str());
            push_str(&mut c, "`");
            validate_expression(value, scope, &c, errors);
            scope.push(chars_of(variable.as_str()));
            assert(vviews(scope@) =~= sc.push(variable@));
        },
        ScriptNode::Collect { value } => {
            let c = chars_of("collect expression");
            validate_expression(value, scope, &c, errors);
        },
        ScriptNode::Yield { value } => {
            let c = chars_of("yield expression");
            validate_expression(value, scope, &c, errors);
        },
        ScriptNode::ForLoop { variable, from, to, steps } => {
            let c1 = var_context_vec("for_loop", variable.as_str(), "from");
            validate_expression(from, scope, &c1, errors);
            let c2 = var_context_vec("for_loop", variable.as_str(), "to");
            validate_expression(to, scope, &c2, errors);
            let b = chars_of(variable.as_str());
            let c3 = var_context_vec("for_loop", variable.as_str(), "body");
            validate_nested_steps(steps, depth + 1, lim, scope, &b, &c3, errors);
            assert(error_views(errors@) =~= e0 + node_errors(*n, depth as nat, *lim, sc).0);
        },
        ScriptNode::ForEach { variable, iterable, steps } => {
            let c1 = var_context_vec("for_each", variable.as_str(), "iterable");
            validate_expression(iterable, scope, &c1, errors);
            let b = chars_of(variable.as_str());
            let c2 = var_context_vec("for_each", variable.as_str(), "body");
            validate_nested_steps(steps, depth + 1, lim, scope, &b, &c2, errors);
            assert(error_views(errors@) =~= e0 + node_errors(*n, depth as nat, *lim, sc).0);
        },
        ScriptNode::WhileLoop { condition, steps } => {
            let c1 = chars_of("while_loop condition");
            validate_expression(condition, scope, &c1, errors);
            let b: Vec<char> = Vec::new();
            let c2 = chars_of("while_loop body");
            validate_nested_steps(steps, depth + 1, lim, scope, &b, &c2, errors);
            assert(error_views(errors@) =~= e0 + node_errors(*n, depth as nat, *lim, sc).0);
        },
        ScriptNode::IfElse { condition, then_steps, else_steps } => {
            let c1 = chars_of("if_else condition");
            validate_expression(condition, scope, &c1, errors);
            let b: Vec<char> = Vec::new();
            let c2 = chars_of("if_else then_steps");
            validate_nested_steps(then_steps, depth + 1, lim, scope, &b, &c2, errors);
            match else_steps {
                Some(es) => {
                    let c3 = chars_of("if_else else_steps");
                    validate_nested_steps(es, depth + 1, lim, scope, &b, &c3, errors);
                },
                None => {},
            }
            assert(error_views(errors@) =~= e0 + node_errors(*n, depth as nat, *lim, sc).0);
        },
        ScriptNode::TryCatch { try_steps, catch_steps, finally_steps, error_var } => {
            let b: Vec<char> = Vec::new();
            let c1 = chars_of("try_catch try_steps");
            validate_nested_steps(try_steps, depth + 1, lim, scope, &b, &c1, errors);
            match catch_steps {
                Some(cs) => {
                    let bv = match error_var {
                        Some(v) => chars_of(v.as_str()),
                        None => Vec::new(),
                    };
                    let c2 = chars_of("try_catch catch_steps");
                    validate_nested_steps(cs, depth + 1, lim, scope, &bv, &c2, errors);
                },
                None => {},
            }
            match finally_steps {
                Some(fs) => {
                    let c3 = chars_of("try_catch finally_steps");
                    validate_nested_steps(fs, depth + 1, lim, scope, &b, &c3, errors);
                },
                None => {},
            }
            assert(error_views(errors@) =~= e0 + node_errors(*n, depth as nat, *lim, sc).0);
        },
        ScriptNode::Parallel { branches } => {
            if branches.len() > lim.max_parallel_branches {
                errors.push(
                    ValidationError::TooManyParallelBranches {
                        branch_count: branches.len(),
                        max: lim.max_parallel_branches,
                    },
                );
            }
            if branches.len() == 0 {
                errors.push(
                    ValidationError::EmptySteps {
                        context: string_of(&chars_of("parallel branches")),
                    },
                );
            }
            check_nesting(depth + 1, lim, errors);
            check_branches(branches, depth + 1, lim, scope, errors);
            assert(error_views(errors@) =~= e0 + node_errors(*n, depth as nat, *lim, sc).0);
        },
    }
}

/// Records the errors of a nested body, checked with `bound` (when not empty)
/// added to a copy of the scope.
fn validate_nested_steps(
    s: &Vec<ScriptNode>,
    next_depth: usize,
    lim: &ScriptLimits,
    scope: &Vec<Vec<char>>,
    bound: &Vec<char>,
    ctx: &Vec<char>,
    errors: &mut Vec<ValidationError>,
)
    requires
        next_depth + list_size(s@) <= usize::MAX,
    ensures
        error_views(final(errors)@) == error_views(old(errors)@) + nested_errors(
            s@,
            next_depth as nat,
            *lim,
            vviews(scope@),
            bound@,
            ctx@,
        ),
    decreases s@, s@.len() + 3,
{
    let ghost e0 = error_views(errors@);
    check_nesting(next_depth, lim, errors);
    let mut nested = copy_scope(scope);
    if bound.len() > 0 {
        nested.push(bound.clone());
        assert(vviews(nested@) =~= vviews(scope@).push(bound@));
    }
    validate_steps(s, next_depth, lim, &mut nested, ctx, errors);
    assert(error_views(errors@) =~= e0 + nested_errors(
        s@,
        next_depth as nat,
        *lim,
        vviews(scope@),
        bound@,
        ctx@,
    ));
}

/// Records the errors of a list of steps and updates the scope; an empty list
/// is an error in context `ctx`.
fn validate_steps(
    s: &Vec<ScriptNode>,
    depth: usize,
    lim: &ScriptLimits,
    scope: &mut Vec<Vec<char>>,
    ctx: &Vec<char>,
    errors: &mut Vec<ValidationError>,
)
    requires
        depth + list_size(s@) <= usize::MAX,
    ensures
        error_views(final(errors)@) == error_views(old(errors)@) + steps_errors(
            s@,
            depth as nat,
            *lim,
            vviews(old(scope)@),
            ctx@,
        ).0,
        vviews(final(scope)@) == steps_errors(s@, depth as nat, *lim, vviews(old(scope)@), ctx@).1,
    decreases s@, s@.len() + 2,
{
    let ghost e0 = error_views(errors@);
    let ghost sc0 = vviews(scope@);
    if s.len() == 0 {
        errors.push(ValidationError::EmptySteps { context: string_of(ctx) });
        assert(error_views(errors@) =~= e0 + steps_errors(s@, depth as nat, *lim, sc0, ctx@).0);
        return;
    }
    let mut i: usize = 0;
    while i < s.len()
        invariant
            0 <= i <= s.len(),
            depth + items_size(s@, i as int) <= usize::MAX,
            ({
                let (ea, sa) = steps_from(s@, i as int, depth as nat, *lim, vviews(scope@));
                let (eb, sb) = steps_from(s@, 0, depth as nat, *lim, sc0);
                &&& error_views(errors@) + ea == e0 + eb
                &&& sa == sb
            }),
        decreases s.len() - i,
    {
        let ghost before_e = error_views(errors@);
        let ghost before_s = vviews(scope@);
        validate_node(&s[i], depth, lim, scope, errors);
        let ghost (e1, sc1) = node_errors(s@[i as int], depth as nat, *lim, before_s);
        assert(vviews(scope@) == sc1);
        assert(error_views(errors@) == before_e + e1);
        let ghost (e2, sc2) = steps_from(s@, i + 1, depth as nat, *lim, sc1);
        assert(steps_from(s@, i as int, depth as nat, *lim, before_s) == (e1 + e2, sc2));
        assert(error_views(errors@) + e2 =~= before_e + (e1 + e2));
        i += 1;
    }
    assert(steps_from(s@, s.len() as int, depth as nat, *lim, vviews(scope@)).0 =~= Seq::<
        ValidationErrorView,
    >::empty());
    assert(error_views(errors@) =~= e0 + steps_errors(s@, depth as nat, *lim, sc0, ctx@).0);
}

/// Records the errors of the parallel branches, each with its own copy of the
/// scope.
fn check_branches(
    b: &Vec<Vec<ScriptNode>>,
    depth: usize,
    lim: &ScriptLimits,
    scope: &Vec<Vec<char>>,
    errors: &mut Vec<ValidationError>,
)
    requires
        depth + branches_size(b@, 0) <= usize::MAX,
    ensures
        error_views(final(errors)@) == error_views(old(errors)@) + branch_errors(
            b@,
            0,
            depth as nat,
            *lim,
            vviews(scope@),
        ),
    decreases b@, b@.len() + 1,
{
    let ghost e0 = error_views(errors@);
    let ghost sc = vviews(scope@);
    let mut i: usize = 0;
    while i < b.len()
        invariant
            0 <= i <= b.len(),
            sc == vviews(scope@),
            depth + branches_size(b@, i as int) <= usize::MAX,
            error_views(errors@) + branch_errors(b@, i as int, depth as nat, *lim, sc) == e0
                + branch_errors(b@, 0, depth as nat, *lim, sc),
        decreases b.len() - i,
    {
        let ghost before = error_views(errors@);
        let mut branch_scope = copy_scope(scope);
        let mut ctx = chars_of("parallel branch ");
        push_dec(&mut ctx, i as u64);
        validate_steps(&b[i], depth, lim, &mut branch_scope, &ctx, errors);
        let ghost this = steps_errors(b@[i as int]@, depth as nat, *lim, sc, "parallel branch "@ + dec(
            i as nat,
        )).0;
        assert(error_views(errors@) == before + this);
        assert(error_views(errors@) + branch_errors(b@, i + 1, depth as nat, *lim, sc) =~= before
            + branch_errors(b@, i as int, depth as nat, *lim, sc));
        i += 1;
    }
    assert(branch_errors(b@, b.len() as int, depth as nat, *lim, sc) =~= Seq::<
        ValidationErrorView,
    >::empty());
    assert(error_views(errors@) =~= e0 + branch_errors(b@, 0, depth as nat, *lim, sc));
}

/// Checks a script against the format rules and `limits`: `Ok` when it breaks
/// none, otherwise every broken rule in the order found.
pub fn validate_script(script: &ScriptDefinition, limits: &ScriptLimits) -> (r: Result<
    (),
    Vec<ValidationError>,
>)
    requires
        list_size(script.steps@) < usize::MAX,
    ensures
        match r {
            Ok(()) => script_errors(*script, *limits).len() == 0,
            Err(errs) => error_views(errs@) == script_errors(*script, *limits) && errs@.len() > 0,
        },
{
    let mut errors: Vec<ValidationError> = Vec::new();
    if script.schema_version != SCHEMA_VERSION {
        errors.push(
            ValidationError::WrongSchemaVersion {
                found: script.schema_version,
                expected: SCHEMA_VERSION,
            },
        );
    }
    let text = script_json_text(script);
    let size = utf8_len_of(text.as_str());
    if size > limits.max_script_size_bytes {
        errors.push(
            ValidationError::ScriptTooLarge { size_bytes: size, max_bytes: limits.max_script_size_bytes },
        );
    }
    if script.steps.len() == 0 {
        errors.push(
            ValidationError::EmptySteps { context: string_of(&chars_of("top-level script steps")) },
        );
    }
    let ghost e_head = error_views(errors@);
    assert(e_head =~= script_errors(*script, *limits).take(e_head.len() as int)) by {
        assert(script_errors(*script, *limits) =~= e_head + steps_errors(
            script.steps@,
            0,
            *limits,
            seq![],
            "top-level script steps"@,
        ).0);
    }
    let mut scope: Vec<Vec<char>> = Vec::new();
    assert(vviews(scope@) =~= Seq::<Seq<char>>::empty());
    let ctx = chars_of("top-level script steps");
    validate_steps(&script.steps, 0, limits, &mut scope, &ctx, &mut errors);
    assert(error_views(errors@) =~= script_errors(*script, *limits));
    if errors.len() == 0 {
        Ok(())
    } else {
        Err(errors)
    }
}

/// Finishes parsing: `script` came from JSON whose root was (or was not) an
/// object. A wrong format version is refused first, then a non-object root.
pub fn check_parsed_script(script: ScriptDefinition, root_is_object: bool) -> (r: Result<
    ScriptDefinition,
    ScriptParseError,
>)
    ensures
        script.schema_version != SCHEMA_VERSION ==> (r matches Err(
            ScriptParseError::WrongSchemaVersion { found, expected },
        ) && found == script.schema_version && expected == SCHEMA_VERSION),
        script.schema_version == SCHEMA_VERSION && !root_is_object ==> (r matches Err(
            ScriptParseError::Structure(msg),
        ) && msg@ == "script root must be a JSON object"@),
        script.schema_version == SCHEMA_VERSION && root_is_object ==> (r matches Ok(s) && s
            == script),
{
    if script.schema_version != SCHEMA_VERSION {
        return Err(
            ScriptParseError::WrongSchemaVersion {
                found: script.schema_version,
                expected: SCHEMA_VERSION,
            },
        );
    }
    if !root_is_object {
        return Err(
            ScriptParseError::Structure(string_of(&chars_of("script root must be a JSON object"))),
        );
    }
    Ok(script)
}

} // verus!
