//! `config set` and `config unset`: which keys exist, what kind of value each
//! takes, and which values are accepted, with the error answered otherwise.
use vstd::prelude::*;

use crate::text::{
    ascii_lower_seq, ascii_lower_vec, index_of_char, index_of_from, lemma_index_of_from,
    slice_chars, chars_of, contains, eq_str, join, parse_unsigned, parse_unsigned_vec, push_str,
    string_of,
};

verus! {

/// The closed sets of values some keys accept.
#[derive(Debug, Clone, Copy, PartialEq, Eq, Structural)]
pub enum AllowedValues {
    ReasoningEffort,
    BrowserBackend,
    BudgetEnforcement,
}

/// The kind of value a key takes.
#[derive(Debug, Clone, Copy, PartialEq, Eq, Structural)]
pub enum ValueKind {
    Bool,
    U16,
    U32,
    U64,
    Usize,
    String,
    Path,
    Enum(AllowedValues),
    NullableEnum(AllowedValues),
    NullableFloat,
    Model,
}

/// A value accepted for a key.
#[derive(Debug, Clone, PartialEq, Eq)]
pub enum ConfigValue {
    Bool(bool),
    U16(u16),
    U32(u32),
    U64(u64),
    Usize(usize),
    /// A string, path, model or one of the allowed values, as given.
    Text(String),
    /// One of the allowed values, or `None` for `null`.
    Choice(Option<String>),
    /// The text of a floating-point number, or `None` for `null`. The number
    /// itself is read by the caller.
    FloatText(Option<String>),
}

/// What `config unset` clears.
#[derive(Debug, Clone, Copy, PartialEq, Eq, Structural)]
pub enum UnsetTarget {
    /// The whole `optimization` block.
    OptimizationBlock,
    /// The whole `script` block.
    ScriptBlock,
    /// One key, of the given kind.
    Key(ValueKind),
}

/// Why a configuration change was refused.
#[derive(Debug)]
pub enum ConfigError {
    UnknownKey(String),
    BadValue { key: String, value: String, reason: String },
    Io(std::io::Error),
}

/// The values of a closed set, in the order error messages list them.
pub open spec fn allowed_values(a: AllowedValues) -> Seq<Seq<char>> {
    match a {
        AllowedValues::ReasoningEffort => seq!["high"@, "medium"@, "low"@],
        AllowedValues::BrowserBackend => seq!["extension"@],
        AllowedValues::BudgetEnforcement => seq!["warn"@, "block"@],
    }
}

/// The kind of value `key` takes, or `None` for an unknown key.
pub open spec fn key_kind(key: Seq<char>) -> Option<ValueKind> {
    if key == "headless"@ {
        Some(ValueKind::Bool)
    } else if key == "max_steps"@ {
        Some(ValueKind::U32)
    } else if key == "model"@ {
        Some(ValueKind::Model)
    } else if key == "reasoning_effort"@ {
        Some(ValueKind::Enum(AllowedValues::ReasoningEffort))
    } else if key == "output_dir"@ {
        Some(ValueKind::Path)
    } else if key == "auto_compact_input_tokens"@ {
        Some(ValueKind::U64)
    } else if key == "max_concurrent_per_parent"@ {
        Some(ValueKind::U32)
    } else if key == "max_fork_depth"@ {
        Some(ValueKind::U32)
    } else if key == "max_total_agents"@ {
        Some(ValueKind::U32)
    } else if key == "fork_child_max_steps"@ {
        Some(ValueKind::U32)
    } else if key == "fork_wait_timeout_secs"@ {
        Some(ValueKind::U32)
    } else if key == "extension_bridge_token"@ {
        Some(ValueKind::String)
    } else if key == "extension_bridge_port"@ {
        Some(ValueKind::U16)
    } else if key == "browser_backend"@ {
        Some(ValueKind::NullableEnum(AllowedValues::BrowserBackend))
    } else if key == "compaction_prune_protect_tokens"@ {
        Some(ValueKind::U64)
    } else if key == "compaction_prune_max_output_chars"@ {
        Some(ValueKind::U64)
    } else if key == "compaction_preserve_recent_tokens"@ {
        Some(ValueKind::U64)
    } else if key == "compaction_preserve_recent_messages_floor"@ {
        Some(ValueKind::U32)
    } else if key == "compaction_max_summary_chars"@ {
        Some(ValueKind::U64)
    } else if key == "compaction_llm_summarization"@ {
        Some(ValueKind::Bool)
    } else if key == "optimization.html_diff_mode"@ {
        Some(ValueKind::Bool)
    } else if key == "optimization.loop_detection"@ {
        Some(ValueKind::Bool)
    } else if key == "optimization.loop_detection_window"@ {
        Some(ValueKind::Usize)
    } else if key == "optimization.loop_nudge_threshold"@ {
        Some(ValueKind::Usize)
    } else if key == "optimization.page_fingerprinting"@ {
        Some(ValueKind::Bool)
    } else if key == "optimization.planning_interval"@ {
        Some(ValueKind::Usize)
    } else if key == "optimization.failure_classification"@ {
        Some(ValueKind::Bool)
    } else if key == "optimization.self_healing"@ {
        Some(ValueKind::Bool)
    } else if key == "optimization.self_healing_max_retries"@ {
        Some(ValueKind::Usize)
    } else if key == "optimization.action_caching"@ {
        Some(ValueKind::Bool)
    } else if key == "optimization.action_cache_ttl_secs"@ {
        Some(ValueKind::U64)
    } else if key == "optimization.confidence_tracking"@ {
        Some(ValueKind::Bool)
    } else if key == "optimization.compound_enrichment"@ {
        Some(ValueKind::Bool)
    } else if key == "optimization.budget_max_session_cost_usd"@ {
        Some(ValueKind::NullableFloat)
    } else if key == "optimization.budget_enforcement"@ {
        Some(ValueKind::NullableEnum(AllowedValues::BudgetEnforcement))
    } else if key == "optimization.budget_warn_threshold_pct"@ {
        Some(ValueKind::U32)
    } else if key == "optimization.per_agent_cost_tracking"@ {
        Some(ValueKind::Bool)
    } else if key == "optimization.content_aware_profiles"@ {
        Some(ValueKind::Bool)
    } else if key == "script.max_steps"@ {
        Some(ValueKind::Usize)
    } else if key == "script.max_timeout_secs"@ {
        Some(ValueKind::U64)
    } else if key == "script.max_output_bytes"@ {
        Some(ValueKind::Usize)
    } else if key == "script.max_parallel_branches"@ {
        Some(ValueKind::Usize)
    } else if key == "script.max_concurrent_scripts"@ {
        Some(ValueKind::Usize)
    } else if key == "script.per_step_timeout_secs"@ {
        Some(ValueKind::U64)
    } else if key == "script.max_script_size_bytes"@ {
        Some(ValueKind::Usize)
    } else if key == "script.max_nesting_depth"@ {
        Some(ValueKind::Usize)
    } else if key == "script.scripts_dir"@ {
        Some(ValueKind::Path)
    } else {
        None
    }
}

/// `r` is a `BadValue` error naming `key`, `value` and `reason`.
pub open spec fn is_bad_value(
    r: Result<ConfigValue, ConfigError>,
    key: Seq<char>,
    value: Seq<char>,
    reason: Seq<char>,
) -> bool {
    r matches Err(ConfigError::BadValue { key: k, value: v, reason: m }) && k@ == key && v@ == value
        && m@ == reason
}

/// The reason given for a value outside a closed set.
pub open spec fn not_allowed_reason(a: AllowedValues) -> Seq<char> {
    "expected one of: "@ + join(allowed_values(a), ", "@)
}

/// The outcome of parsing `value` as an unsigned integer at most `max`:
/// the number, or the error.
pub open spec fn unsigned_outcome(
    r: Result<ConfigValue, ConfigError>,
    key: Seq<char>,
    value: Seq<char>,
    max: nat,
    make: spec_fn(nat) -> ConfigValue,
) -> bool {
    match parse_unsigned(value, max) {
        Some(n) => r == Ok::<ConfigValue, ConfigError>(make(n)),
        None => is_bad_value(r, key, value, "expected unsigned integer"@),
    }
}

/// `r` is what parsing `value` for a key of `kind` gives.
pub open spec fn parse_outcome(
    kind: ValueKind,
    key: Seq<char>,
    value: Seq<char>,
    r: Result<ConfigValue, ConfigError>,
) -> bool {
    match kind {
        ValueKind::Bool => if value == "true"@ {
            r == Ok::<ConfigValue, ConfigError>(ConfigValue::Bool(true))
        } else if value == "false"@ {
            r == Ok::<ConfigValue, ConfigError>(ConfigValue::Bool(false))
        } else {
            is_bad_value(r, key, value, "expected bool (true or false)"@)
        },
        ValueKind::U16 => unsigned_outcome(r, key, value, u16::MAX as nat, |n: nat| ConfigValue::U16(n as u16)),
        ValueKind::U32 => unsigned_outcome(r, key, value, u32::MAX as nat, |n: nat| ConfigValue::U32(n as u32)),
        ValueKind::U64 => unsigned_outcome(r, key, value, u64::MAX as nat, |n: nat| ConfigValue::U64(n as u64)),
        ValueKind::Usize => unsigned_outcome(
            r,
            key,
            value,
            usize::MAX as nat,
            |n: nat| ConfigValue::Usize(n as usize),
        ),
        ValueKind::String | ValueKind::Path => r matches Ok(ConfigValue::Text(t)) && t@ == value,
        ValueKind::Enum(a) => if allowed_values(a).contains(value) {
            r matches Ok(ConfigValue::Text(t)) && t@ == value
        } else {
            is_bad_value(r, key, value, not_allowed_reason(a))
        },
        ValueKind::NullableEnum(a) => if value == "null"@ {
            r == Ok::<ConfigValue, ConfigError>(ConfigValue::Choice(None))
        } else if allowed_values(a).contains(value) {
            r matches Ok(ConfigValue::Choice(Some(t))) && t@ == value
        } else {
            is_bad_value(r, key, value, not_allowed_reason(a))
        },
        ValueKind::NullableFloat => if value == "null"@ {
            r == Ok::<ConfigValue, ConfigError>(ConfigValue::FloatText(None))
        } else if is_float_text(value) {
            r matches Ok(ConfigValue::FloatText(Some(t))) && t@ == value
        } else {
            is_bad_value(r, key, value, "expected float"@)
        },
        ValueKind::Model => if contains(value, seq!['/']) {
            r matches Ok(ConfigValue::Text(t)) && t@ == value
        } else {
            is_bad_value(r, key, value, "expected provider/model format containing '/'"@)
        },
    }
}

// ---------------------------------------------------------------------------
// The text of a float
// ---------------------------------------------------------------------------

/// An ASCII decimal digit.
pub open spec fn is_digit_char(c: char) -> bool {
    '0' <= c <= '9'
}

/// Every character is a digit.
pub open spec fn all_digits(s: Seq<char>) -> bool {
    forall|i: int| 0 <= i < s.len() ==> is_digit_char(#[trigger] s[i])
}

/// Digits with at most one `.` among them, and at least one digit.
pub open spec fn is_mantissa(m: Seq<char>) -> bool {
    match index_of_from(m, '.', 0) {
        None => m.len() > 0 && all_digits(m),
        Some(p) => m.len() > 1 && all_digits(m.take(p)) && all_digits(m.skip(p + 1)),
    }
}

/// An optional sign followed by at least one digit.
pub open spec fn is_exponent(x: Seq<char>) -> bool {
    let d = if x.len() > 0 && (x[0] == '+' || x[0] == '-') {
        x.skip(1)
    } else {
        x
    };
    d.len() > 0 && all_digits(d)
}

/// A lower-case float without its sign: `inf`, `infinity`, `nan`, or a
/// mantissa with an optional exponent after `e`.
pub open spec fn is_unsigned_float(t: Seq<char>) -> bool {
    t == "inf"@ || t == "infinity"@ || t == "nan"@ || match index_of_from(t, 'e', 0) {
        None => is_mantissa(t),
        Some(k) => is_mantissa(t.take(k)) && is_exponent(t.skip(k + 1)),
    }
}

/// Text that `f64`'s `FromStr` accepts: an optional sign, then `inf`,
/// `infinity` or `nan` (any case), or decimal digits with at most one `.` and
/// at least one digit, optionally followed by `e` or `E`, an optional sign
/// and digits.
pub open spec fn is_float_text(s: Seq<char>) -> bool {
    let t = ascii_lower_seq(s);
    let u = if t.len() > 0 && (t[0] == '+' || t[0] == '-') {
        t.skip(1)
    } else {
        t
    };
    is_unsigned_float(u)
}

/// Whether the characters of `s` in `[from, to)` are all digits.
fn digits_in(s: &Vec<char>, from: usize, to: usize) -> (r: bool)
    requires
        from <= to <= s.len(),
    ensures
        r == all_digits(s@.subrange(from as int, to as int)),
{
    let mut i = from;
    while i < to
        invariant
            from <= i <= to <= s.len(),
            all_digits(s@.subrange(from as int, i as int)),
        decreases to - i,
    {
        if !('0' <= s[i] && s[i] <= '9') {
            assert(s@.subrange(from as int, to as int)[i - from] == s@[i as int]);
            return false;
        }
        i += 1;
        assert forall|j: int| 0 <= j < i - from implies is_digit_char(
            #[trigger] s@.subrange(from as int, i as int)[j],
        ) by {
            if j < i - 1 - from {
                assert(s@.subrange(from as int, i as int)[j] == s@.subrange(from as int, i - 1)[j]);
            }
        }
    }
    true
}

/// `is_mantissa` of `s[from..to]`.
fn mantissa_in(s: &Vec<char>, from: usize, to: usize) -> (r: bool)
    requires
        from <= to <= s.len(),
    ensures
        r == is_mantissa(s@.subrange(from as int, to as int)),
{
    let m = slice_chars(s, from, to);
    proof {
        lemma_index_of_from(m@, '.', 0);
    }
    match index_of_char(&m, '.', 0) {
        None => {
            proof {
                assert(m@.subrange(0, m@.len() as int) =~= m@);
            }
            m.len() > 0 && digits_in(&m, 0, m.len())
        },
        Some(p) => {
            proof {
                assert(m@.subrange(0, p as int) =~= m@.take(p as int));
                assert(m@.subrange(p + 1, m@.len() as int) =~= m@.skip(p + 1));
            }
            m.len() > 1 && digits_in(&m, 0, p) && digits_in(&m, p + 1, m.len())
        },
    }
}

/// `is_float_text` of the characters `v`.
fn float_text(v: &Vec<char>) -> (r: bool)
    ensures
        r == is_float_text(v@),
{
    let t = ascii_lower_vec(v);
    let start: usize = if t.len() > 0 && (t[0] == '+' || t[0] == '-') {
        1
    } else {
        0
    };
    let u = slice_chars(&t, start, t.len());
    proof {
        assert(u@ =~= if t@.len() > 0 && (t@[0] == '+' || t@[0] == '-') {
            t@.skip(1)
        } else {
            t@
        });
        lemma_index_of_from(u@, 'e', 0);
    }
    if eq_str(&u, "inf") || eq_str(&u, "infinity") || eq_str(&u, "nan") {
        return true;
    }
    match index_of_char(&u, 'e', 0) {
        None => {
            proof {
                assert(u@.subrange(0, u@.len() as int) =~= u@);
            }
            mantissa_in(&u, 0, u.len())
        },
        Some(k) => {
            let x = slice_chars(&u, k + 1, u.len());
            let xs: usize = if x.len() > 0 && (x[0] == '+' || x[0] == '-') {
                1
            } else {
                0
            };
            proof {
                assert(u@.subrange(0, k as int) =~= u@.take(k as int));
                assert(x@ =~= u@.skip(k + 1));
                assert(x@.subrange(xs as int, x@.len() as int) =~= (if x@.len() > 0 && (x@[0] == '+'
                    || x@[0] == '-') {
                    x@.skip(1)
                } else {
                    x@
                }));
            }
            mantissa_in(&u, 0, k) && x.len() > xs && digits_in(&x, xs, x.len())
        },
    }
}

/// The kind of value `key` takes, if `key` is known.
pub fn lookup_key_kind(key: &str) -> (r: Option<ValueKind>)
    ensures
        r == key_kind(key@),
{
    let k = chars_of(key);
    if eq_str(&k, "headless") {
        return Some(ValueKind::Bool);
    }
    if eq_str(&k, "max_steps") {
        return Some(ValueKind::U32);
    }
    if eq_str(&k, "model") {
        return Some(ValueKind::Model);
    }
    if eq_str(&k, "reasoning_effort") {
        return Some(ValueKind::Enum(AllowedValues::ReasoningEffort));
    }
    if eq_str(&k, "output_dir") {
        return Some(ValueKind::Path);
    }
    if eq_str(&k, "auto_compact_input_tokens") {
        return Some(ValueKind::U64);
    }
    if eq_str(&k, "max_concurrent_per_parent") {
        return Some(ValueKind::U32);
    }
    if eq_str(&k, "max_fork_depth") {
        return Some(ValueKind::U32);
    }
    if eq_str(&k, "max_total_agents") {
        return Some(ValueKind::U32);
    }
    if eq_str(&k, "fork_child_max_steps") {
        return Some(ValueKind::U32);
    }
    if eq_str(&k, "fork_wait_timeout_secs") {
        return Some(ValueKind::U32);
    }
    if eq_str(&k, "extension_bridge_token") {
        return Some(ValueKind::String);
    }
    if eq_str(&k, "extension_bridge_port") {
        return Some(ValueKind::U16);
    }
    if eq_str(&k, "browser_backend") {
        return Some(ValueKind::NullableEnum(AllowedValues::BrowserBackend));
    }
    if eq_str(&k, "compaction_prune_protect_tokens") {
        return Some(ValueKind::U64);
    }
    if eq_str(&k, "compaction_prune_max_output_chars") {
        return Some(ValueKind::U64);
    }
    if eq_str(&k, "compaction_preserve_recent_tokens") {
        return Some(ValueKind::U64);
    }
    if eq_str(&k, "compaction_preserve_recent_messages_floor") {
        return Some(ValueKind::U32);
    }
    if eq_str(&k, "compaction_max_summary_chars") {
        return Some(ValueKind::U64);
    }
    if eq_str(&k, "compaction_llm_summarization") {
        return Some(ValueKind::Bool);
    }
    if eq_str(&k, "optimization.html_diff_mode") {
        return Some(ValueKind::Bool);
    }
    if eq_str(&k, "optimization.loop_detection") {
        return Some(ValueKind::Bool);
    }
    if eq_str(&k, "optimization.loop_detection_window") {
        return Some(ValueKind::Usize);
    }
    if eq_str(&k, "optimization.loop_nudge_threshold") {
        return Some(ValueKind::Usize);
    }
    if eq_str(&k, "optimization.page_fingerprinting") {
        return Some(ValueKind::Bool);
    }
    if eq_str(&k, "optimization.planning_interval") {
        return Some(ValueKind::Usize);
    }
    if eq_str(&k, "optimization.failure_classification") {
        return Some(ValueKind::Bool);
    }
    if eq_str(&k, "optimization.self_healing") {
        return Some(ValueKind::Bool);
    }
    if eq_str(&k, "optimization.self_healing_max_retries") {
        return Some(ValueKind::Usize);
    }
    if eq_str(&k, "optimization.action_caching") {
        return Some(ValueKind::Bool);
    }
    if eq_str(&k, "optimization.action_cache_ttl_secs") {
        return Some(ValueKind::U64);
    }
    if eq_str(&k, "optimization.confidence_tracking") {
        return Some(ValueKind::Bool);
    }
    if eq_str(&k, "optimization.compound_enrichment") {
        return Some(ValueKind::Bool);
    }
    if eq_str(&k, "optimization.budget_max_session_cost_usd") {
        return Some(ValueKind::NullableFloat);
    }
    if eq_str(&k, "optimization.budget_enforcement") {
        return Some(ValueKind::NullableEnum(AllowedValues::BudgetEnforcement));
    }
    if eq_str(&k, "optimization.budget_warn_threshold_pct") {
        return Some(ValueKind::U32);
    }
    if eq_str(&k, "optimization.per_agent_cost_tracking") {
        return Some(ValueKind::Bool);
    }
    if eq_str(&k, "optimization.content_aware_profiles") {
        return Some(ValueKind::Bool);
    }
    if eq_str(&k, "script.max_steps") {
        return Some(ValueKind::Usize);
    }
    if eq_str(&k, "script.max_timeout_secs") {
        return Some(ValueKind::U64);
    }
    if eq_str(&k, "script.max_output_bytes") {
        return Some(ValueKind::Usize);
    }
    if eq_str(&k, "script.max_parallel_branches") {
        return Some(ValueKind::Usize);
    }
    if eq_str(&k, "script.max_concurrent_scripts") {
        return Some(ValueKind::Usize);
    }
    if eq_str(&k, "script.per_step_timeout_secs") {
        return Some(ValueKind::U64);
    }
    if eq_str(&k, "script.max_script_size_bytes") {
        return Some(ValueKind::Usize);
    }
    if eq_str(&k, "script.max_nesting_depth") {
        return Some(ValueKind::Usize);
    }
    if eq_str(&k, "script.scripts_dir") {
        return Some(ValueKind::Path);
    }
    None
}

fn bad_value(key: &str, value: &str, reason: &str) -> (e: ConfigError)
    ensures
        is_bad_value(Err(e), key@, value@, reason@),
{
    ConfigError::BadValue {
        key: string_of(&chars_of(key)),
        value: string_of(&chars_of(value)),
        reason: string_of(&chars_of(reason)),
    }
}

fn text_of(value: &str) -> (s: String)
    ensures
        s@ == value@,
{
    string_of(&chars_of(value))
}

/// The values of `a`, as string slices.
fn allowed_list(a: AllowedValues) -> (r: Vec<&'static str>)
    ensures
        r@.map_values(|s: &str| s@) == allowed_values(a),
{
    let r = match a {
        AllowedValues::ReasoningEffort => vec!["high", "medium", "low"],
        AllowedValues::BrowserBackend => vec!["extension"],
        AllowedValues::BudgetEnforcement => vec!["warn", "block"],
    };
    assert(r@.map_values(|s: &str| s@) =~= allowed_values(a));
    r
}

/// Whether `value` is one of `a`; if not, the reason to give.
fn parse_enum(key: &str, value: &str, a: AllowedValues) -> (r: Result<String, ConfigError>)
    ensures
        allowed_values(a).contains(value@) ==> (r matches Ok(t) && t@ == value@),
        !allowed_values(a).contains(value@) ==> is_bad_value(
            match r {
                Ok(t) => Ok(ConfigValue::Text(t)),
                Err(e) => Err(e),
            },
            key@,
            value@,
            not_allowed_reason(a),
        ),
{
    let list = allowed_list(a);
    let ghost names = allowed_values(a);
    let v = chars_of(value);
    let mut i: usize = 0;
    while i < list.len()
        invariant
            0 <= i <= list.len(),
            list@.map_values(|s: &str| s@) == names,
            names == allowed_values(a),
            v@ == value@,
            forall|j: int| 0 <= j < i ==> names[j] != value@,
        decreases list.len() - i,
    {
        if eq_str(&v, list[i]) {
            assert(names[i as int] == value@);
            return Ok(text_of(value));
        }
        i += 1;
    }
    assert(!names.contains(value@));
    let mut reason = chars_of("expected one of: ");
    let mut j: usize = 0;
    let ghost start = reason@;
    while j < list.len()
        invariant
            0 <= j <= list.len(),
            list@.map_values(|s: &str| s@) == names,
            reason@ == start + join(names.take(j as int), ", "@),
        decreases list.len() - j,
    {
        proof {
            crate::text::lemma_join_push(names.take(j as int), ", "@, names[j as int]);
            assert(names.take(j as int).push(names[j as int]) == names.take(j + 1));
        }
        if j > 0 {
            push_str(&mut reason, ", ");
        }
        push_str(&mut reason, list[j]);
        j += 1;
    }
    assert(names.take(list.len() as int) == names);
    Err(ConfigError::BadValue {
        key: text_of(key),
        value: text_of(value),
        reason: string_of(&reason),
    })
}

/// Parses `value` for a key of `kind`.
pub fn parse_value(kind: ValueKind, key: &str, value: &str) -> (r: Result<ConfigValue, ConfigError>)
    ensures
        parse_outcome(kind, key@, value@, r),
{
    let v = chars_of(value);
    match kind {
        ValueKind::Bool => {
            if eq_str(&v, "true") {
                Ok(ConfigValue::Bool(true))
            } else if eq_str(&v, "false") {
                Ok(ConfigValue::Bool(false))
            } else {
                Err(bad_value(key, value, "expected bool (true or false)"))
            }
        },
        ValueKind::U16 => match parse_unsigned_vec(&v, 0xffff) {
            Some(n) => Ok(ConfigValue::U16(n as u16)),
            None => Err(bad_value(key, value, "expected unsigned integer")),
        },
        ValueKind::U32 => match parse_unsigned_vec(&v, 0xffff_ffff) {
            Some(n) => Ok(ConfigValue::U32(n as u32)),
            None => Err(bad_value(key, value, "expected unsigned integer")),
        },
        ValueKind::U64 => match parse_unsigned_vec(&v, 0xffff_ffff_ffff_ffff) {
            Some(n) => Ok(ConfigValue::U64(n)),
            None => Err(bad_value(key, value, "expected unsigned integer")),
        },
        ValueKind::Usize => match parse_unsigned_vec(&v, usize::MAX as u64) {
            Some(n) => Ok(ConfigValue::Usize(n as usize)),
            None => Err(bad_value(key, value, "expected unsigned integer")),
        },
        ValueKind::String | ValueKind::Path => Ok(ConfigValue::Text(text_of(value))),
        ValueKind::Enum(a) => match parse_enum(key, value, a) {
            Ok(t) => Ok(ConfigValue::Text(t)),
            Err(e) => Err(e),
        },
        ValueKind::NullableEnum(a) => {
            if eq_str(&v, "null") {
                Ok(ConfigValue::Choice(None))
            } else {
                match parse_enum(key, value, a) {
                    Ok(t) => Ok(ConfigValue::Choice(Some(t))),
                    Err(e) => Err(e),
                }
            }
        },
        ValueKind::NullableFloat => {
            if eq_str(&v, "null") {
                Ok(ConfigValue::FloatText(None))
            } else if float_text(&v) {
                Ok(ConfigValue::FloatText(Some(text_of(value))))
            } else {
                Err(bad_value(key, value, "expected float"))
            }
        },
        ValueKind::Model => {
            let mut slash: Vec<char> = Vec::new();
            slash.push('/');
            if crate::text::contains_vec(&v, &slash) {
                assert(slash@ == seq!['/']);
                Ok(ConfigValue::Text(text_of(value)))
            } else {
                Err(bad_value(key, value, "expected provider/model format containing '/'"))
            }
        },
    }
}

/// `r` is what `config set key value` gives: an unknown key is refused,
/// and a known key takes `value` parsed by its kind.
pub open spec fn set_outcome(key: Seq<char>, value: Seq<char>, r: Result<ConfigValue, ConfigError>) -> bool {
    match key_kind(key) {
        None => r matches Err(ConfigError::UnknownKey(k)) && k@ == key,
        Some(kind) => parse_outcome(kind, key, value, r),
    }
}

/// What `config set key value` accepts: an unknown key is refused, and a
/// known key takes `value` parsed by its kind.
pub fn check_config_set(key: &str, value: &str) -> (r: Result<ConfigValue, ConfigError>)
    ensures
        set_outcome(key@, value@, r),
{
    match lookup_key_kind(key) {
        None => Err(ConfigError::UnknownKey(text_of(key))),
        Some(kind) => parse_value(kind, key, value),
    }
}

/// What `config unset key` clears: a whole block, or one known key.
pub fn check_config_unset(key: &str) -> (r: Result<UnsetTarget, ConfigError>)
    ensures
        key@ == "optimization"@ ==> r == Ok::<UnsetTarget, ConfigError>(UnsetTarget::OptimizationBlock),
        key@ == "script"@ ==> r == Ok::<UnsetTarget, ConfigError>(UnsetTarget::ScriptBlock),
        key@ != "optimization"@ && key@ != "script"@ ==> match key_kind(key@) {
            None => r matches Err(ConfigError::UnknownKey(k)) && k@ == key@,
            Some(kind) => r == Ok::<UnsetTarget, ConfigError>(UnsetTarget::Key(kind)),
        },
{
    let k = chars_of(key);
    if eq_str(&k, "optimization") {
        proof {
            reveal_strlit("optimization");
            reveal_strlit("script");
            assert("optimization"@[0] != "script"@[0]);
        }
        return Ok(UnsetTarget::OptimizationBlock);
    }
    if eq_str(&k, "script") {
        return Ok(UnsetTarget::ScriptBlock);
    }
    match lookup_key_kind(key) {
        None => Err(ConfigError::UnknownKey(text_of(key))),
        Some(kind) => Ok(UnsetTarget::Key(kind)),
    }
}

/// The text of an I/O error (`Display` of `std::io::Error`). Nothing is
/// stated of it.
#[verifier::external_body]
pub(crate) fn io_error_text(e: &std::io::Error) -> String {
    e.to_string()
}

impl ConfigError {
    /// The error as a message: the unknown key, or the refused value with
    /// the reason; an I/O error reads as its own message, which is not stated.
    pub fn message(&self) -> (r: String)
        ensures
            match self {
                ConfigError::UnknownKey(k) => r@ == "unknown config key: "@ + k@,
                ConfigError::BadValue { key, value, reason } => r@ == "bad value for "@ + key@
                    + ": "@ + value@ + " ("@ + reason@ + ")"@,
                ConfigError::Io(_) => true,
            },
    {
        match self {
            ConfigError::UnknownKey(k) => {
                let mut v = chars_of("unknown config key: ");
                push_str(&mut v, k.as_str());
                string_of(&v)
            },
            ConfigError::BadValue { key, value, reason } => {
                let mut v = chars_of("bad value for ");
                push_str(&mut v, key.as_str());
                push_str(&mut v, ": ");
                push_str(&mut v, value.as_str());
                push_str(&mut v, " (");
                push_str(&mut v, reason.as_str());
                push_str(&mut v, ")");
                string_of(&v)
            },
            ConfigError::Io(e) => io_error_text(e),
        }
    }
}

// ---------------------------------------------------------------------------
// The stored configuration
// ---------------------------------------------------------------------------

/// A configuration value as values.
pub enum StoredValue {
    Bool(bool),
    U16(u16),
    U32(u32),
    U64(u64),
    Usize(usize),
    Text(Seq<char>),
    Choice(Option<Seq<char>>),
    FloatText(Option<Seq<char>>),
}

impl View for ConfigValue {
    type V = StoredValue;

    open spec fn view(&self) -> StoredValue {
        match self {
            ConfigValue::Bool(b) => StoredValue::Bool(*b),
            ConfigValue::U16(n) => StoredValue::U16(*n),
            ConfigValue::U32(n) => StoredValue::U32(*n),
            ConfigValue::U64(n) => StoredValue::U64(*n),
            ConfigValue::Usize(n) => StoredValue::Usize(*n),
            ConfigValue::Text(t) => StoredValue::Text(t@),
            ConfigValue::Choice(c) => StoredValue::Choice(
                match c {
                    Some(t) => Some(t@),
                    None => None,
                },
            ),
            ConfigValue::FloatText(f) => StoredValue::FloatText(
                match f {
                    Some(t) => Some(t@),
                    None => None,
                },
            ),
        }
    }
}

/// The keys of the `optimization` block.
pub open spec fn in_optimization_block(key: Seq<char>) -> bool {
    key.len() >= 13 && key.take(13) == "optimization."@
}

/// The keys of the `script` block.
pub open spec fn in_script_block(key: Seq<char>) -> bool {
    key.len() >= 7 && key.take(7) == "script."@
}

/// What a key holds once a value is set: a `null` leaves it unset.
pub open spec fn after_set(m: Map<Seq<char>, StoredValue>, key: Seq<char>, v: StoredValue) -> Map<
    Seq<char>,
    StoredValue,
> {
    match v {
        StoredValue::Choice(None) | StoredValue::FloatText(None) => m.remove(key),
        _ => m.insert(key, v),
    }
}

/// What is left once `config unset` has cleared its target.
pub open spec fn after_unset(m: Map<Seq<char>, StoredValue>, key: Seq<char>, t: UnsetTarget) -> Map<
    Seq<char>,
    StoredValue,
> {
    match t {
        UnsetTarget::OptimizationBlock => m.remove_keys(
            Set::new(|k: Seq<char>| in_optimization_block(k)),
        ),
        UnsetTarget::ScriptBlock => m.remove_keys(Set::new(|k: Seq<char>| in_script_block(k))),
        UnsetTarget::Key(_) => m.remove(key),
    }
}

/// The stored entries as values.
pub open spec fn entries_view(s: Seq<(String, ConfigValue)>) -> Seq<(Seq<char>, StoredValue)> {
    s.map_values(|e: (String, ConfigValue)| (e.0@, e.1@))
}

/// The map a list of entries gives: a later entry for a key wins.
pub open spec fn entries_map(s: Seq<(Seq<char>, StoredValue)>) -> Map<Seq<char>, StoredValue>
    decreases s.len(),
{
    if s.len() == 0 {
        Map::empty()
    } else {
        entries_map(s.drop_last()).insert(s.last().0, s.last().1)
    }
}

/// The entries whose key `gone` does not hold of, in order.
pub open spec fn kept(s: Seq<(Seq<char>, StoredValue)>, gone: spec_fn(Seq<char>) -> bool) -> Seq<
    (Seq<char>, StoredValue),
>
    decreases s.len(),
{
    if s.len() == 0 {
        s
    } else if gone(s.last().0) {
        kept(s.drop_last(), gone)
    } else {
        kept(s.drop_last(), gone).push(s.last())
    }
}

/// A key is in the map exactly when some entry carries it.
proof fn lemma_map_keys(s: Seq<(Seq<char>, StoredValue)>, k: Seq<char>)
    ensures
        entries_map(s).contains_key(k) <==> exists|i: int| 0 <= i < s.len() && s[i].0 == k,
    decreases s.len(),
{
    if s.len() > 0 {
        lemma_map_keys(s.drop_last(), k);
        if entries_map(s.drop_last()).contains_key(k) {
            let i = choose|i: int| 0 <= i < s.drop_last().len() && s.drop_last()[i].0 == k;
            assert(s[i].0 == k);
        }
        if exists|i: int| 0 <= i < s.len() && s[i].0 == k {
            let i = choose|i: int| 0 <= i < s.len() && s[i].0 == k;
            if i < s.len() - 1 {
                assert(s.drop_last()[i].0 == k);
            }
        }
    }
}

/// Dropping entries drops their keys from the map.
proof fn lemma_kept_map(s: Seq<(Seq<char>, StoredValue)>, gone: spec_fn(Seq<char>) -> bool)
    ensures
        entries_map(kept(s, gone)) =~= entries_map(s).remove_keys(Set::new(gone)),
    decreases s.len(),
{
    if s.len() > 0 {
        lemma_kept_map(s.drop_last(), gone);
        let rest = entries_map(s.drop_last());
        let g = Set::new(gone);
        assert(entries_map(s) == rest.insert(s.last().0, s.last().1));
        if gone(s.last().0) {
            assert(kept(s, gone) == kept(s.drop_last(), gone));
            assert(rest.insert(s.last().0, s.last().1).remove_keys(g) =~= rest.remove_keys(g));
        } else {
            assert(kept(s, gone) == kept(s.drop_last(), gone).push(s.last()));
            assert(kept(s, gone).drop_last() =~= kept(s.drop_last(), gone));
            assert(rest.insert(s.last().0, s.last().1).remove_keys(g) =~= rest.remove_keys(
                g,
            ).insert(s.last().0, s.last().1));
        }
    } else {
        assert(entries_map(s).remove_keys(Set::new(gone)) =~= Map::<Seq<char>, StoredValue>::empty());
    }
}

/// The configuration `config set` writes and `config get` reads: the values
/// stored for keys, each key at most once.
pub struct StoredConfig {
    entries: Vec<(String, ConfigValue)>,
}

impl View for StoredConfig {
    type V = Map<Seq<char>, StoredValue>;

    closed spec fn view(&self) -> Map<Seq<char>, StoredValue> {
        entries_map(entries_view(self.entries@))
    }
}

impl StoredConfig {
    /// Only known keys are stored.
    #[verifier::type_invariant]
    spec fn only_known_keys(self) -> bool {
        &&& forall|i: int| 0 <= i < self.entries@.len() ==> key_kind(#[trigger] self.entries@[i].0@) is Some
        &&& forall|i: int, j: int|
            0 <= i < j < self.entries@.len() ==> #[trigger] self.entries@[i].0@ != #[trigger] self.entries@[j].0@
    }

    /// A configuration with nothing set.
    pub fn new() -> (r: StoredConfig)
        ensures
            r@ == Map::<Seq<char>, StoredValue>::empty(),
    {
        let r = StoredConfig { entries: Vec::new() };
        proof {
            assert(entries_view(r.entries@) =~= Seq::<(Seq<char>, StoredValue)>::empty());
        }
        r
    }

    /// Keeps the entries whose key `gone` does not hold of.
    fn keep_where(&mut self, key: &str, block: UnsetTarget)
        ensures
            final(self)@ == after_unset(old(self)@, key@, block),
    {
        let ghost gone: spec_fn(Seq<char>) -> bool = match block {
            UnsetTarget::OptimizationBlock => |k: Seq<char>| in_optimization_block(k),
            UnsetTarget::ScriptBlock => |k: Seq<char>| in_script_block(k),
            UnsetTarget::Key(_) => |k: Seq<char>| k == key@,
        };
        proof {
            use_type_invariant(&*self);
        }
        let ghost old_view = entries_view(self.entries@);
        let mut out: Vec<(String, ConfigValue)> = Vec::new();
        let mut i: usize = 0;
        while i < self.entries.len()
            invariant
                0 <= i <= self.entries.len(),
                old_view == entries_view(self.entries@),
                forall|j: int| 0 <= j < self.entries@.len() ==> key_kind(#[trigger] self.entries@[j].0@) is Some,
                forall|j: int| 0 <= j < out@.len() ==> key_kind(#[trigger] out@[j].0@) is Some,
                forall|a: int, b: int|
                    0 <= a < b < self.entries@.len() ==> #[trigger] self.entries@[a].0@
                        != #[trigger] self.entries@[b].0@,
                forall|a: int, b: int|
                    0 <= a < b < out@.len() ==> #[trigger] out@[a].0@ != #[trigger] out@[b].0@,
                forall|a: int|
                    0 <= a < out@.len() ==> exists|j: int|
                        0 <= j < i && #[trigger] out@[a].0@ == self.entries@[j].0@,
                entries_view(out@) == kept(old_view.take(i as int), gone),
                gone == (match block {
                    UnsetTarget::OptimizationBlock => |k: Seq<char>| in_optimization_block(k),
                    UnsetTarget::ScriptBlock => |k: Seq<char>| in_script_block(k),
                    UnsetTarget::Key(_) => |k: Seq<char>| k == key@,
                }),
            decreases self.entries.len() - i,
        {
            let k = &self.entries[i].0;
            let drop = match block {
                UnsetTarget::OptimizationBlock => starts_with_str(k, "optimization."),
                UnsetTarget::ScriptBlock => starts_with_str(k, "script."),
                UnsetTarget::Key(_) => eq_str(&chars_of(k.as_str()), key),
            };
            proof {
                reveal_strlit("optimization.");
                reveal_strlit("script.");
                assert(old_view.take(i + 1).drop_last() =~= old_view.take(i as int));
                assert(old_view.take(i + 1).last() == old_view[i as int]);
                assert(drop == gone(old_view[i as int].0));
            }
            if !drop {
                let ghost before = out@;
                out.push((self.entries[i].0.clone(), copy_value(&self.entries[i].1)));
                proof {
                    assert(entries_view(out@) =~= entries_view(before).push(old_view[i as int]));
                    assert forall|a: int| 0 <= a < before.len() implies #[trigger] before[a].0@
                        != self.entries@[i as int].0@ by {
                        let j = choose|j: int| 0 <= j < i && before[a].0@ == self.entries@[j].0@;
                        assert(self.entries@[j].0@ != self.entries@[i as int].0@);
                    }
                    assert forall|a: int| 0 <= a < out@.len() implies exists|j: int|
                        0 <= j < i + 1 && #[trigger] out@[a].0@ == self.entries@[j].0@ by {
                        if a < before.len() {
                            let j = choose|j: int| 0 <= j < i && before[a].0@ == self.entries@[j].0@;
                            assert(out@[a].0@ == self.entries@[j].0@);
                        } else {
                            assert(out@[a].0@ == self.entries@[i as int].0@);
                        }
                    }
                    assert forall|a: int, b: int| 0 <= a < b < out@.len() implies #[trigger] out@[a].0@
                        != #[trigger] out@[b].0@ by {
                        if b < before.len() {
                            assert(out@[a] == before[a] && out@[b] == before[b]);
                        } else {
                            assert(out@[a] == before[a]);
                        }
                    }
                }
            }
            i += 1;
        }
        proof {
            assert(old_view.take(self.entries.len() as int) =~= old_view);
            lemma_kept_map(old_view, gone);
        }
        self.entries = out;
        proof {
            match block {
                UnsetTarget::Key(_) => {
                    assert(Set::new(gone) =~= set![key@]);
                    assert(entries_map(old_view).remove_keys(set![key@]) =~= entries_map(
                        old_view,
                    ).remove(key@));
                },
                _ => {},
            }
        }
    }

    /// Sets `key` to `value` as `config set` does: an unknown key or a value
    /// that its kind refuses is an error and changes nothing; otherwise the
    /// parsed value is stored (a `null` leaves the key unset) and returned.
    pub fn apply_set(&mut self, key: &str, value: &str) -> (r: Result<ConfigValue, ConfigError>)
        ensures
            match key_kind(key@) {
                None => r matches Err(ConfigError::UnknownKey(k)) && k@ == key@,
                Some(kind) => parse_outcome(kind, key@, value@, r),
            },
            r is Err ==> final(self)@ == old(self)@,
            r matches Ok(v) ==> final(self)@ == after_set(old(self)@, key@, v@),
    {
        let v = match check_config_set(key, value) {
            Ok(v) => v,
            Err(e) => return Err(e),
        };
        let kind = match lookup_key_kind(key) {
            Some(kind) => kind,
            None => return Err(ConfigError::UnknownKey(text_of(key))),
        };
        self.keep_where(key, UnsetTarget::Key(kind));
        match &v {
            ConfigValue::Choice(None) | ConfigValue::FloatText(None) => {},
            _ => {
                proof {
                    use_type_invariant(&*self);
                    lemma_map_keys(entries_view(self.entries@), key@);
                    assert(!self@.contains_key(key@));
                    assert forall|j: int| 0 <= j < self.entries@.len() implies #[trigger] self.entries@[j].0@
                        != key@ by {
                        assert(entries_view(self.entries@)[j].0 == self.entries@[j].0@);
                    }
                }
                let ghost before = self.entries@;
                let mut entries: Vec<(String, ConfigValue)> = Vec::new();
                std::mem::swap(&mut entries, &mut self.entries);
                assert(entries@ == before);
                entries.push((text_of(key), copy_value(&v)));
                self.entries = entries;
                proof {
                    assert(entries_view(self.entries@).drop_last() =~= entries_view(before));
                    assert(entries_map(entries_view(before)) == old(self)@.remove(key@));
                    assert(old(self)@.remove(key@).insert(key@, v@) =~= old(self)@.insert(
                        key@,
                        v@,
                    ));
                }
            },
        }
        Ok(v)
    }

    /// Leaves `key` unset when it is a known key; any other text, a block's
    /// name among them, changes nothing.
    pub fn apply_unset(&mut self, key: &str)
        ensures
            key_kind(key@) is Some ==> final(self)@ == old(self)@.remove(key@),
            key_kind(key@) is None ==> final(self)@ == old(self)@,
    {
        match lookup_key_kind(key) {
            Some(kind) => self.keep_where(key, UnsetTarget::Key(kind)),
            None => {},
        }
    }

    /// The keys that hold a value.
    pub fn stored_keys(&self) -> (r: Vec<String>)
        ensures
            forall|k: Seq<char>| #[trigger] self@.contains_key(k) <==> exists|i: int|
                0 <= i < r@.len() && r@[i]@ == k,
    {
        let ghost ev = entries_view(self.entries@);
        let mut r: Vec<String> = Vec::new();
        let mut i: usize = 0;
        while i < self.entries.len()
            invariant
                0 <= i <= self.entries.len(),
                ev == entries_view(self.entries@),
                r@.len() == i,
                forall|j: int| 0 <= j < i ==> #[trigger] r@[j]@ == ev[j].0,
            decreases self.entries.len() - i,
        {
            r.push(self.entries[i].0.clone());
            i += 1;
        }
        proof {
            assert forall|k: Seq<char>| #[trigger] self@.contains_key(k) <==> exists|i: int|
                0 <= i < r@.len() && r@[i]@ == k by {
                lemma_map_keys(ev, k);
                if self@.contains_key(k) {
                    let i = choose|i: int| 0 <= i < ev.len() && ev[i].0 == k;
                    assert(r@[i]@ == k);
                }
                if exists|i: int| 0 <= i < r@.len() && r@[i]@ == k {
                    let i = choose|i: int| 0 <= i < r@.len() && r@[i]@ == k;
                    assert(ev[i].0 == k);
                }
            }
        }
        r
    }

    /// The value stored for `key`, if any.
    pub fn stored_value(&self, key: &str) -> (r: Option<ConfigValue>)
        ensures
            match r {
                Some(v) => self@.contains_key(key@) && self@[key@] == v@,
                None => !self@.contains_key(key@),
            },
            key_kind(key@) is None ==> r is None,
    {
        proof {
            use_type_invariant(self);
            lemma_map_keys(entries_view(self.entries@), key@);
            if key_kind(key@) is None && self@.contains_key(key@) {
                let i = choose|i: int|
                    0 <= i < self.entries@.len() && entries_view(self.entries@)[i].0 == key@;
                assert(self.entries@[i].0@ == key@);
            }
        }
        let ghost ev = entries_view(self.entries@);
        let mut i: usize = self.entries.len();
        assert(ev.take(i as int) =~= ev);
        while i > 0
            invariant
                0 <= i <= self.entries.len(),
                ev == entries_view(self.entries@),
                key_kind(key@) is None ==> !entries_map(ev).contains_key(key@),
                entries_map(ev).contains_key(key@) == entries_map(ev.take(i as int)).contains_key(
                    key@,
                ),
                entries_map(ev.take(i as int)).contains_key(key@) ==> entries_map(ev)[key@]
                    == entries_map(ev.take(i as int))[key@],
            decreases i,
        {
            let k = &self.entries[i - 1].0;
            proof {
                assert(ev.take(i as int).drop_last() =~= ev.take(i - 1));
                assert(ev.take(i as int).last() == ev[i - 1]);
            }
            if eq_str(&chars_of(k.as_str()), key) {
                return Some(copy_value(&self.entries[i - 1].1));
            }
            i -= 1;
        }
        proof {
            assert(ev.take(0) =~= Seq::<(Seq<char>, StoredValue)>::empty());
        }
        None
    }
}

/// A copy of a value, equal to it.
fn copy_value(v: &ConfigValue) -> (r: ConfigValue)
    ensures
        r@ == v@,
{
    match v {
        ConfigValue::Bool(b) => ConfigValue::Bool(*b),
        ConfigValue::U16(n) => ConfigValue::U16(*n),
        ConfigValue::U32(n) => ConfigValue::U32(*n),
        ConfigValue::U64(n) => ConfigValue::U64(*n),
        ConfigValue::Usize(n) => ConfigValue::Usize(*n),
        ConfigValue::Text(t) => ConfigValue::Text(t.clone()),
        ConfigValue::Choice(c) => ConfigValue::Choice(
            match c {
                Some(t) => Some(t.clone()),
                None => None,
            },
        ),
        ConfigValue::FloatText(f) => ConfigValue::FloatText(
            match f {
                Some(t) => Some(t.clone()),
                None => None,
            },
        ),
    }
}

/// Whether the characters of `s` begin with those of `prefix`.
fn starts_with_str(s: &String, prefix: &str) -> (r: bool)
    ensures
        r == (s@.len() >= prefix@.len() && s@.take(prefix@.len() as int) == prefix@),
{
    let a = chars_of(s.as_str());
    let b = chars_of(prefix);
    if a.len() < b.len() {
        return false;
    }
    let mut i: usize = 0;
    while i < b.len()
        invariant
            0 <= i <= b.len() <= a.len(),
            a@ == s@,
            b@ == prefix@,
            forall|j: int| 0 <= j < i ==> a@[j] == b@[j],
        decreases b.len() - i,
    {
        if a[i] != b[i] {
            return false;
        }
        i += 1;
    }
    assert(s@.take(prefix@.len() as int) =~= prefix@);
    true
}

/// `null` stored for a key that takes one: the key is left unset.
pub open spec fn is_null_value(v: StoredValue) -> bool {
    v matches StoredValue::Choice(None) || v matches StoredValue::FloatText(None)
}

/// Reading a key back after setting it gives the value set (nothing, for a
/// `null`), and every other key keeps what it held.
pub proof fn lemma_get_after_set(
    m: Map<Seq<char>, StoredValue>,
    key: Seq<char>,
    v: StoredValue,
    other: Seq<char>,
)
    requires
        other != key,
    ensures
        !is_null_value(v) ==> after_set(m, key, v).contains_key(key) && after_set(m, key, v)[key]
            == v,
        is_null_value(v) ==> !after_set(m, key, v).contains_key(key),
        after_set(m, key, v).contains_key(other) == m.contains_key(other),
        m.contains_key(other) ==> after_set(m, key, v)[other] == m[other],
{
}

/// Setting the same value twice is setting it once.
pub proof fn lemma_set_idempotent(m: Map<Seq<char>, StoredValue>, key: Seq<char>, v: StoredValue)
    ensures
        after_set(after_set(m, key, v), key, v) == after_set(m, key, v),
{
    assert(after_set(after_set(m, key, v), key, v) =~= after_set(m, key, v));
}

/// After `config unset` of a key nothing is stored for it; unsetting a block
/// clears exactly the keys of that block. Every other key keeps its value.
pub proof fn lemma_get_after_unset(
    m: Map<Seq<char>, StoredValue>,
    key: Seq<char>,
    t: UnsetTarget,
    other: Seq<char>,
)
    ensures
        t is Key ==> !after_unset(m, key, t).contains_key(key),
        t is Key && other != key ==> after_unset(m, key, t).contains_key(other) == m.contains_key(
            other,
        ),
        t is OptimizationBlock ==> after_unset(m, key, t).contains_key(other) == (m.contains_key(
            other,
        ) && !in_optimization_block(other)),
        t is ScriptBlock ==> after_unset(m, key, t).contains_key(other) == (m.contains_key(other)
            && !in_script_block(other)),
        after_unset(m, key, t).contains_key(other) ==> after_unset(m, key, t)[other] == m[other],
{
}

/// `config set key value` on the stored configuration: the value is parsed
/// for the key and stored, or the error is answered and nothing changes.
pub fn config_set(stored: &mut StoredConfig, key: &str, value: &str) -> (r: Result<(), ConfigError>)
    ensures
        match key_kind(key@) {
            None => r matches Err(ConfigError::UnknownKey(k)) && k@ == key@,
            Some(kind) => exists|p: Result<ConfigValue, ConfigError>| #[trigger]
                parse_outcome(kind, key@, value@, p) && match p {
                    Ok(v) => r is Ok && final(stored)@ == after_set(old(stored)@, key@, v@),
                    Err(e) => r == Err::<(), ConfigError>(e),
                },
        },
        r is Err ==> final(stored)@ == old(stored)@,
{
    match stored.apply_set(key, value) {
        Ok(_) => Ok(()),
        Err(e) => Err(e),
    }
}

/// `config unset key` on the stored configuration: `optimization` and
/// `script` clear their whole block, a known key is left unset, and any other
/// key is an error that changes nothing.
pub fn config_unset(stored: &mut StoredConfig, key: &str) -> (r: Result<(), ConfigError>)
    ensures
        key@ == "optimization"@ ==> r is Ok && final(stored)@ == after_unset(
            old(stored)@,
            key@,
            UnsetTarget::OptimizationBlock,
        ),
        key@ == "script"@ ==> r is Ok && final(stored)@ == after_unset(
            old(stored)@,
            key@,
            UnsetTarget::ScriptBlock,
        ),
        key@ != "optimization"@ && key@ != "script"@ ==> match key_kind(key@) {
            None => r matches Err(ConfigError::UnknownKey(k)) && k@ == key@ && final(stored)@ == old(
                stored,
            )@,
            Some(_) => r is Ok && final(stored)@ == old(stored)@.remove(key@),
        },
{
    match check_config_unset(key) {
        Ok(UnsetTarget::Key(_)) => {
            stored.apply_unset(key);
            Ok(())
        },
        Ok(t) => {
            stored.keep_where(key, t);
            Ok(())
        },
        Err(e) => Err(e),
    }
}

/// The value a key falls back to when nothing is stored for it: the
/// documented defaults, and none for keys without a fallback.
pub open spec fn default_of(key: Seq<char>) -> Option<StoredValue> {
    if key == "headless"@ {
        Some(StoredValue::Bool(true))
    } else if key == "max_steps"@ {
        Some(StoredValue::U32(50))
    } else if key == "reasoning_effort"@ {
        Some(StoredValue::Text("high"@))
    } else if key == "auto_compact_input_tokens"@ {
        Some(StoredValue::U64(200_000))
    } else if key == "max_concurrent_per_parent"@ {
        Some(StoredValue::U32(5))
    } else if key == "max_fork_depth"@ {
        Some(StoredValue::U32(3))
    } else if key == "max_total_agents"@ {
        Some(StoredValue::U32(10))
    } else if key == "fork_child_max_steps"@ {
        Some(StoredValue::U32(15))
    } else if key == "fork_wait_timeout_secs"@ {
        Some(StoredValue::U32(60))
    } else if key == "extension_bridge_port"@ {
        Some(StoredValue::U16(19_876))
    } else {
        None
    }
}

/// The fallback value of `key`, if it has one.
pub fn default_value(key: &str) -> (r: Option<ConfigValue>)
    ensures
        match r {
            Some(v) => default_of(key@) == Some(v@),
            None => default_of(key@) is None,
        },
{
    let k = chars_of(key);
    if eq_str(&k, "headless") {
        Some(ConfigValue::Bool(true))
    } else if eq_str(&k, "max_steps") {
        Some(ConfigValue::U32(50))
    } else if eq_str(&k, "reasoning_effort") {
        Some(ConfigValue::Text(text_of("high")))
    } else if eq_str(&k, "auto_compact_input_tokens") {
        Some(ConfigValue::U64(200_000))
    } else if eq_str(&k, "max_concurrent_per_parent") {
        Some(ConfigValue::U32(5))
    } else if eq_str(&k, "max_fork_depth") {
        Some(ConfigValue::U32(3))
    } else if eq_str(&k, "max_total_agents") {
        Some(ConfigValue::U32(10))
    } else if eq_str(&k, "fork_child_max_steps") {
        Some(ConfigValue::U32(15))
    } else if eq_str(&k, "fork_wait_timeout_secs") {
        Some(ConfigValue::U32(60))
    } else if eq_str(&k, "extension_bridge_port") {
        Some(ConfigValue::U16(19_876))
    } else {
        None
    }
}

/// The value `key` has in effect: nothing for an unknown key, the stored
/// value when there is one, else the key's fallback.
pub fn effective_value(stored: &StoredConfig, key: &str) -> (r: Option<ConfigValue>)
    ensures
        key_kind(key@) is None ==> r is None,
        key_kind(key@) is Some && stored@.contains_key(key@) ==> (r matches Some(v) && v@
            == stored@[key@]),
        key_kind(key@) is Some && !stored@.contains_key(key@) ==> match r {
            Some(v) => default_of(key@) == Some(v@),
            None => default_of(key@) is None,
        },
{
    if lookup_key_kind(key).is_none() {
        return None;
    }
    match stored.stored_value(key) {
        Some(v) => Some(v),
        None => default_value(key),
    }
}

/// What `config get` answers.
#[derive(Debug, Clone, PartialEq, Eq)]
pub enum ConfigReading {
    /// The whole configuration, asked for with an empty key.
    Whole,
    /// The value of one key: stored, or in effect; `None` reads as `null`.
    Value(Option<ConfigValue>),
}

/// `config get key`: the whole configuration for an empty key; for a known
/// key its stored value, or the value in effect when `effective` is set; an
/// unknown key is an error.
pub fn config_get(stored: &StoredConfig, key: &str, effective: bool) -> (r: Result<
    ConfigReading,
    ConfigError,
>)
    ensures
        key@.len() == 0 ==> r == Ok::<ConfigReading, ConfigError>(ConfigReading::Whole),
        key@.len() > 0 && key_kind(key@) is None ==> (r matches Err(ConfigError::UnknownKey(k))
            && k@ == key@),
        key@.len() > 0 && key_kind(key@) is Some && !effective ==> (r matches Ok(
            ConfigReading::Value(v),
        ) && match v {
            Some(x) => stored@.contains_key(key@) && stored@[key@] == x@,
            None => !stored@.contains_key(key@),
        }),
        key@.len() > 0 && key_kind(key@) is Some && effective ==> (r matches Ok(
            ConfigReading::Value(v),
        ) && (stored@.contains_key(key@) ==> (v matches Some(x) && x@ == stored@[key@])) && (
        !stored@.contains_key(key@) ==> match v {
            Some(x) => default_of(key@) == Some(x@),
            None => default_of(key@) is None,
        })),
{
    if chars_of(key).len() == 0 {
        return Ok(ConfigReading::Whole);
    }
    if lookup_key_kind(key).is_none() {
        return Err(ConfigError::UnknownKey(text_of(key)));
    }
    if effective {
        Ok(ConfigReading::Value(effective_value(stored, key)))
    } else {
        Ok(ConfigReading::Value(stored.stored_value(key)))
    }
}

} // verus!
verus! {

/// The configuration keys with the kind of value each takes.
pub open spec fn key_table() -> Seq<(Seq<char>, ValueKind)> {
    seq![
        ("headless"@, ValueKind::Bool),
        ("max_steps"@, ValueKind::U32),
        ("model"@, ValueKind::Model),
        ("reasoning_effort"@, ValueKind::Enum(AllowedValues::ReasoningEffort)),
        ("output_dir"@, ValueKind::Path),
        ("auto_compact_input_tokens"@, ValueKind::U64),
        ("max_concurrent_per_parent"@, ValueKind::U32),
        ("max_fork_depth"@, ValueKind::U32),
        ("max_total_agents"@, ValueKind::U32),
        ("fork_child_max_steps"@, ValueKind::U32),
        ("fork_wait_timeout_secs"@, ValueKind::U32),
        ("extension_bridge_token"@, ValueKind::String),
        ("extension_bridge_port"@, ValueKind::U16),
        ("browser_backend"@, ValueKind::NullableEnum(AllowedValues::BrowserBackend)),
        ("compaction_prune_protect_tokens"@, ValueKind::U64),
        ("compaction_prune_max_output_chars"@, ValueKind::U64),
        ("compaction_preserve_recent_tokens"@, ValueKind::U64),
        ("compaction_preserve_recent_messages_floor"@, ValueKind::U32),
        ("compaction_max_summary_chars"@, ValueKind::U64),
        ("compaction_llm_summarization"@, ValueKind::Bool),
        ("optimization.html_diff_mode"@, ValueKind::Bool),
        ("optimization.loop_detection"@, ValueKind::Bool),
        ("optimization.loop_detection_window"@, ValueKind::Usize),
        ("optimization.loop_nudge_threshold"@, ValueKind::Usize),
        ("optimization.page_fingerprinting"@, ValueKind::Bool),
        ("optimization.planning_interval"@, ValueKind::Usize),
        ("optimization.failure_classification"@, ValueKind::Bool),
        ("optimization.self_healing"@, ValueKind::Bool),
        ("optimization.self_healing_max_retries"@, ValueKind::Usize),
        ("optimization.action_caching"@, ValueKind::Bool),
        ("optimization.action_cache_ttl_secs"@, ValueKind::U64),
        ("optimization.confidence_tracking"@, ValueKind::Bool),
        ("optimization.compound_enrichment"@, ValueKind::Bool),
        ("optimization.budget_max_session_cost_usd"@, ValueKind::NullableFloat),
        ("optimization.budget_enforcement"@, ValueKind::NullableEnum(AllowedValues::BudgetEnforcement)),
        ("optimization.budget_warn_threshold_pct"@, ValueKind::U32),
        ("optimization.per_agent_cost_tracking"@, ValueKind::Bool),
        ("optimization.content_aware_profiles"@, ValueKind::Bool),
        ("script.max_steps"@, ValueKind::Usize),
        ("script.max_timeout_secs"@, ValueKind::U64),
        ("script.max_output_bytes"@, ValueKind::Usize),
        ("script.max_parallel_branches"@, ValueKind::Usize),
        ("script.max_concurrent_scripts"@, ValueKind::Usize),
        ("script.per_step_timeout_secs"@, ValueKind::U64),
        ("script.max_script_size_bytes"@, ValueKind::Usize),
        ("script.max_nesting_depth"@, ValueKind::Usize),
        ("script.scripts_dir"@, ValueKind::Path),
    ]
}

/// Every key of the table takes the kind of value the table gives it, and
/// no other key is known.
pub proof fn lemma_key_kinds_follow_table(key: Seq<char>)
    ensures
        forall|i: int| 0 <= i < key_table().len() ==> key_kind(#[trigger] key_table()[i].0) == Some(key_table()[i].1),
        (forall|i: int| 0 <= i < key_table().len() ==> #[trigger] key_table()[i].0 != key) ==> key_kind(key) is None,
{
    assert(key_kind("headless"@) == Some(ValueKind::Bool)) by {
        reveal_strlit("headless");
    }
    assert(key_kind("max_steps"@) == Some(ValueKind::U32)) by {
        reveal_strlit("max_steps");
        reveal_strlit("headless");
        assert("headless"@.len() != "max_steps"@.len());
    }
    assert(key_kind("model"@) == Some(ValueKind::Model)) by {
        reveal_strlit("model");
        reveal_strlit("headless");
        assert("headless"@.len() != "model"@.len());
        reveal_strlit("max_steps");
        assert("max_steps"@.len() != "model"@.len());
    }
    assert(key_kind("reasoning_effort"@) == Some(ValueKind::Enum(AllowedValues::ReasoningEffort))) by {
        reveal_strlit("reasoning_effort");
        reveal_strlit("headless");
        assert("headless"@.len() != "reasoning_effort"@.len());
        reveal_strlit("max_steps");
        assert("max_steps"@.len() != "reasoning_effort"@.len());
        reveal_strlit("model");
        assert("model"@.len() != "reasoning_effort"@.len());
    }
    assert(key_kind("output_dir"@) == Some(ValueKind::Path)) by {
        reveal_strlit("output_dir");
        reveal_strlit("headless");
        assert("headless"@.len() != "output_dir"@.len());
        reveal_strlit("max_steps");
        assert("max_steps"@.len() != "output_dir"@.len());
        reveal_strlit("model");
        assert("model"@.len() != "output_dir"@.len());
        reveal_strlit("reasoning_effort");
        assert("reasoning_effort"@.len() != "output_dir"@.len());
    }
    assert(key_kind("auto_compact_input_tokens"@) == Some(ValueKind::U64)) by {
        reveal_strlit("auto_compact_input_tokens");
        reveal_strlit("headless");
        assert("headless"@.len() != "auto_compact_input_tokens"@.len());
        reveal_strlit("max_steps");
        assert("max_steps"@.len() != "auto_compact_input_tokens"@.len());
        reveal_strlit("model");
        assert("model"@.len() != "auto_compact_input_tokens"@.len());
        reveal_strlit("reasoning_effort");
        assert("reasoning_effort"@.len() != "auto_compact_input_tokens"@.len());
        reveal_strlit("output_dir");
        assert("output_dir"@.len() != "auto_compact_input_tokens"@.len());
    }
    assert(key_kind("max_concurrent_per_parent"@) == Some(ValueKind::U32)) by {
        reveal_strlit("max_concurrent_per_parent");
        reveal_strlit("headless");
        assert("headless"@.len() != "max_concurrent_per_parent"@.len());
        reveal_strlit("max_steps");
        assert("max_steps"@.len() != "max_concurrent_per_parent"@.len());
        reveal_strlit("model");
        assert("model"@.len() != "max_concurrent_per_parent"@.len());
        reveal_strlit("reasoning_effort");
        assert("reasoning_effort"@.len() != "max_concurrent_per_parent"@.len());
        reveal_strlit("output_dir");
        assert("output_dir"@.len() != "max_concurrent_per_parent"@.len());
        reveal_strlit("auto_compact_input_tokens");
        assert("auto_compact_input_tokens"@[0] != "max_concurrent_per_parent"@[0]);
    }
    assert(key_kind("max_fork_depth"@) == Some(ValueKind::U32)) by {
        reveal_strlit("max_fork_depth");
        reveal_strlit("headless");
        assert("headless"@.len() != "max_fork_depth"@.len());
        reveal_strlit("max_steps");
        assert("max_steps"@.len() != "max_fork_depth"@.len());
        reveal_strlit("model");
        assert("model"@.len() != "max_fork_depth"@.len());
        reveal_strlit("reasoning_effort");
        assert("reasoning_effort"@.len() != "max_fork_depth"@.len());
        reveal_strlit("output_dir");
        assert("output_dir"@.len() != "max_fork_depth"@.len());
        reveal_strlit("auto_compact_input_tokens");
        assert("auto_compact_input_tokens"@.len() != "max_fork_depth"@.len());
        reveal_strlit("max_concurrent_per_parent");
        assert("max_concurrent_per_parent"@.len() != "max_fork_depth"@.len());
    }
    assert(key_kind("max_total_agents"@) == Some(ValueKind::U32)) by {
        reveal_strlit("max_total_agents");
        reveal_strlit("headless");
        assert("headless"@.len() != "max_total_agents"@.len());
        reveal_strlit("max_steps");
        assert("max_steps"@.len() != "max_total_agents"@.len());
        reveal_strlit("model");
        assert("model"@.len() != "max_total_agents"@.len());
        reveal_strlit("reasoning_effort");
        assert("reasoning_effort"@[0] != "max_total_agents"@[0]);
        reveal_strlit("output_dir");
        assert("output_dir"@.len() != "max_total_agents"@.len());
        reveal_strlit("auto_compact_input_tokens");
        assert("auto_compact_input_tokens"@.len() != "max_total_agents"@.len());
        reveal_strlit("max_concurrent_per_parent");
        assert("max_concurrent_per_parent"@.len() != "max_total_agents"@.len());
        reveal_strlit("max_fork_depth");
        assert("max_fork_depth"@.len() != "max_total_agents"@.len());
    }
    assert(key_kind("fork_child_max_steps"@) == Some(ValueKind::U32)) by {
        reveal_strlit("fork_child_max_steps");
        reveal_strlit("headless");
        assert("headless"@.len() != "fork_child_max_steps"@.len());
        reveal_strlit("max_steps");
        assert("max_steps"@.len() != "fork_child_max_steps"@.len());
        reveal_strlit("model");
        assert("model"@.len() != "fork_child_max_steps"@.len());
        reveal_strlit("reasoning_effort");
        assert("reasoning_effort"@.len() != "fork_child_max_steps"@.len());
        reveal_strlit("output_dir");
        assert("output_dir"@.len() != "fork_child_max_steps"@.len());
        reveal_strlit("auto_compact_input_tokens");
        assert("auto_compact_input_tokens"@.len() != "fork_child_max_steps"@.len());
        reveal_strlit("max_concurrent_per_parent");
        assert("max_concurrent_per_parent"@.len() != "fork_child_max_steps"@.len());
        reveal_strlit("max_fork_depth");
        assert("max_fork_depth"@.len() != "fork_child_max_steps"@.len());
        reveal_strlit("max_total_agents");
        assert("max_total_agents"@.len() != "fork_child_max_steps"@.len());
    }
    assert(key_kind("fork_wait_timeout_secs"@) == Some(ValueKind::U32)) by {
        reveal_strlit("fork_wait_timeout_secs");
        reveal_strlit("headless");
        assert("headless"@.len() != "fork_wait_timeout_secs"@.len());
        reveal_strlit("max_steps");
        assert("max_steps"@.len() != "fork_wait_timeout_secs"@.len());
        reveal_strlit("model");
        assert("model"@.len() != "fork_wait_timeout_secs"@.len());
        reveal_strlit("reasoning_effort");
        assert("reasoning_effort"@.len() != "fork_wait_timeout_secs"@.len());
        reveal_strlit("output_dir");
        assert("output_dir"@.len() != "fork_wait_timeout_secs"@.len());
        reveal_strlit("auto_compact_input_tokens");
        assert("auto_compact_input_tokens"@.len() != "fork_wait_timeout_secs"@.len());
        reveal_strlit("max_concurrent_per_parent");
        assert("max_concurrent_per_parent"@.len() != "fork_wait_timeout_secs"@.len());
        reveal_strlit("max_fork_depth");
        assert("max_fork_depth"@.len() != "fork_wait_timeout_secs"@.len());
        reveal_strlit("max_total_agents");
        assert("max_total_agents"@.len() != "fork_wait_timeout_secs"@.len());
        reveal_strlit("fork_child_max_steps");
        assert("fork_child_max_steps"@.len() != "fork_wait_timeout_secs"@.len());
    }
    assert(key_kind("extension_bridge_token"@) == Some(ValueKind::String)) by {
        reveal_strlit("extension_bridge_token");
        reveal_strlit("headless");
        assert("headless"@.len() != "extension_bridge_token"@.len());
        reveal_strlit("max_steps");
        assert("max_steps"@.len() != "extension_bridge_token"@.len());
        reveal_strlit("model");
        assert("model"@.len() != "extension_bridge_token"@.len());
        reveal_strlit("reasoning_effort");
        assert("reasoning_effort"@.len() != "extension_bridge_token"@.len());
        reveal_strlit("output_dir");
        assert("output_dir"@.len() != "extension_bridge_token"@.len());
        reveal_strlit("auto_compact_input_tokens");
        assert("auto_compact_input_tokens"@.len() != "extension_bridge_token"@.len());
        reveal_strlit("max_concurrent_per_parent");
        assert("max_concurrent_per_parent"@.len() != "extension_bridge_token"@.len());
        reveal_strlit("max_fork_depth");
        assert("max_fork_depth"@.len() != "extension_bridge_token"@.len());
        reveal_strlit("max_total_agents");
        assert("max_total_agents"@.len() != "extension_bridge_token"@.len());
        reveal_strlit("fork_child_max_steps");
        assert("fork_child_max_steps"@.len() != "extension_bridge_token"@.len());
        reveal_strlit("fork_wait_timeout_secs");
        assert("fork_wait_timeout_secs"@[0] != "extension_bridge_token"@[0]);
    }
    assert(key_kind("extension_bridge_port"@) == Some(ValueKind::U16)) by {
        reveal_strlit("extension_bridge_port");
        reveal_strlit("headless");
        assert("headless"@.len() != "extension_bridge_port"@.len());
        reveal_strlit("max_steps");
        assert("max_steps"@.len() != "extension_bridge_port"@.len());
        reveal_strlit("model");
        assert("model"@.len() != "extension_bridge_port"@.len());
        reveal_strlit("reasoning_effort");
        assert("reasoning_effort"@.len() != "extension_bridge_port"@.len());
        reveal_strlit("output_dir");
        assert("output_dir"@.len() != "extension_bridge_port"@.len());
        reveal_strlit("auto_compact_input_tokens");
        assert("auto_compact_input_tokens"@.len() != "extension_bridge_port"@.len());
        reveal_strlit("max_concurrent_per_parent");
        assert("max_concurrent_per_parent"@.len() != "extension_bridge_port"@.len());
        reveal_strlit("max_fork_depth");
        assert("max_fork_depth"@.len() != "extension_bridge_port"@.len());
        reveal_strlit("max_total_agents");
        assert("max_total_agents"@.len() != "extension_bridge_port"@.len());
        reveal_strlit("fork_child_max_steps");
        assert("fork_child_max_steps"@.len() != "extension_bridge_port"@.len());
        reveal_strlit("fork_wait_timeout_secs");
        assert("fork_wait_timeout_secs"@.len() != "extension_bridge_port"@.len());
        reveal_strlit("extension_bridge_token");
        assert("extension_bridge_token"@.len() != "extension_bridge_port"@.len());
    }
    assert(key_kind("browser_backend"@) == Some(ValueKind::NullableEnum(AllowedValues::BrowserBackend))) by {
        reveal_strlit("browser_backend");
        reveal_strlit("headless");
        assert("headless"@.len() != "browser_backend"@.len());
        reveal_strlit("max_steps");
        assert("max_steps"@.len() != "browser_backend"@.len());
        reveal_strlit("model");
        assert("model"@.len() != "browser_backend"@.len());
        reveal_strlit("reasoning_effort");
        assert("reasoning_effort"@.len() != "browser_backend"@.len());
        reveal_strlit("output_dir");
        assert("output_dir"@.len() != "browser_backend"@.len());
        reveal_strlit("auto_compact_input_tokens");
        assert("auto_compact_input_tokens"@.len() != "browser_backend"@.len());
        reveal_strlit("max_concurrent_per_parent");
        assert("max_concurrent_per_parent"@.len() != "browser_backend"@.len());
        reveal_strlit("max_fork_depth");
        assert("max_fork_depth"@.len() != "browser_backend"@.len());
        reveal_strlit("max_total_agents");
        assert("max_total_agents"@.len() != "browser_backend"@.len());
        reveal_strlit("fork_child_max_steps");
        assert("fork_child_max_steps"@.len() != "browser_backend"@.len());
        reveal_strlit("fork_wait_timeout_secs");
        assert("fork_wait_timeout_secs"@.len() != "browser_backend"@.len());
        reveal_strlit("extension_bridge_token");
        assert("extension_bridge_token"@.len() != "browser_backend"@.len());
        reveal_strlit("extension_bridge_port");
        assert("extension_bridge_port"@.len() != "browser_backend"@.len());
    }
    assert(key_kind("compaction_prune_protect_tokens"@) == Some(ValueKind::U64)) by {
        reveal_strlit("compaction_prune_protect_tokens");
        reveal_strlit("headless");
        assert("headless"@.len() != "compaction_prune_protect_tokens"@.len());
        reveal_strlit("max_steps");
        assert("max_steps"@.len() != "compaction_prune_protect_tokens"@.len());
        reveal_strlit("model");
        assert("model"@.len() != "compaction_prune_protect_tokens"@.len());
        reveal_strlit("reasoning_effort");
        assert("reasoning_effort"@.len() != "compaction_prune_protect_tokens"@.len());
        reveal_strlit("output_dir");
        assert("output_dir"@.len() != "compaction_prune_protect_tokens"@.len());
        reveal_strlit("auto_compact_input_tokens");
        assert("auto_compact_input_tokens"@.len() != "compaction_prune_protect_tokens"@.len());
        reveal_strlit("max_concurrent_per_parent");
        assert("max_concurrent_per_parent"@.len() != "compaction_prune_protect_tokens"@.len());
        reveal_strlit("max_fork_depth");
        assert("max_fork_depth"@.len() != "compaction_prune_protect_tokens"@.len());
        reveal_strlit("max_total_agents");
        assert("max_total_agents"@.len() != "compaction_prune_protect_tokens"@.len());
        reveal_strlit("fork_child_max_steps");
        assert("fork_child_max_steps"@.len() != "compaction_prune_protect_tokens"@.len());
        reveal_strlit("fork_wait_timeout_secs");
        assert("fork_wait_timeout_secs"@.len() != "compaction_prune_protect_tokens"@.len());
        reveal_strlit("extension_bridge_token");
        assert("extension_bridge_token"@.len() != "compaction_prune_protect_tokens"@.len());
        reveal_strlit("extension_bridge_port");
        assert("extension_bridge_port"@.len() != "compaction_prune_protect_tokens"@.len());
        reveal_strlit("browser_backend");
        assert("browser_backend"@.len() != "compaction_prune_protect_tokens"@.len());
    }
    assert(key_kind("compaction_prune_max_output_chars"@) == Some(ValueKind::U64)) by {
        reveal_strlit("compaction_prune_max_output_chars");
        reveal_strlit("headless");
        assert("headless"@.len() != "compaction_prune_max_output_chars"@.len());
        reveal_strlit("max_steps");
        assert("max_steps"@.len() != "compaction_prune_max_output_chars"@.len());
        reveal_strlit("model");
        assert("model"@.len() != "compaction_prune_max_output_chars"@.len());
        reveal_strlit("reasoning_effort");
        assert("reasoning_effort"@.len() != "compaction_prune_max_output_chars"@.len());
        reveal_strlit("output_dir");
        assert("output_dir"@.len() != "compaction_prune_max_output_chars"@.len());
        reveal_strlit("auto_compact_input_tokens");
        assert("auto_compact_input_tokens"@.len() != "compaction_prune_max_output_chars"@.len());
        reveal_strlit("max_concurrent_per_parent");
        assert("max_concurrent_per_parent"@.len() != "compaction_prune_max_output_chars"@.len());
        reveal_strlit("max_fork_depth");
        assert("max_fork_depth"@.len() != "compaction_prune_max_output_chars"@.len());
        reveal_strlit("max_total_agents");
        assert("max_total_agents"@.len() != "compaction_prune_max_output_chars"@.len());
        reveal_strlit("fork_child_max_steps");
        assert("fork_child_max_steps"@.len() != "compaction_prune_max_output_chars"@.len());
        reveal_strlit("fork_wait_timeout_secs");
        assert("fork_wait_timeout_secs"@.len() != "compaction_prune_max_output_chars"@.len());
        reveal_strlit("extension_bridge_token");
        assert("extension_bridge_token"@.len() != "compaction_prune_max_output_chars"@.len());
        reveal_strlit("extension_bridge_port");
        assert("extension_bridge_port"@.len() != "compaction_prune_max_output_chars"@.len());
        reveal_strlit("browser_backend");
        assert("browser_backend"@.len() != "compaction_prune_max_output_chars"@.len());
        reveal_strlit("compaction_prune_protect_tokens");
        assert("compaction_prune_protect_tokens"@.len() != "compaction_prune_max_output_chars"@.len());
    }
    assert(key_kind("compaction_preserve_recent_tokens"@) == Some(ValueKind::U64)) by {
        reveal_strlit("compaction_preserve_recent_tokens");
        reveal_strlit("headless");
        assert("headless"@.len() != "compaction_preserve_recent_tokens"@.len());
        reveal_strlit("max_steps");
        assert("max_steps"@.len() != "compaction_preserve_recent_tokens"@.len());
        reveal_strlit("model");
        assert("model"@.len() != "compaction_preserve_recent_tokens"@.len());
        reveal_strlit("reasoning_effort");
        assert("reasoning_effort"@.len() != "compaction_preserve_recent_tokens"@.len());
        reveal_strlit("output_dir");
        assert("output_dir"@.len() != "compaction_preserve_recent_tokens"@.len());
        reveal_strlit("auto_compact_input_tokens");
        assert("auto_compact_input_tokens"@.len() != "compaction_preserve_recent_tokens"@.len());
        reveal_strlit("max_concurrent_per_parent");
        assert("max_concurrent_per_parent"@.len() != "compaction_preserve_recent_tokens"@.len());
        reveal_strlit("max_fork_depth");
        assert("max_fork_depth"@.len() != "compaction_preserve_recent_tokens"@.len());
        reveal_strlit("max_total_agents");
        assert("max_total_agents"@.len() != "compaction_preserve_recent_tokens"@.len());
        reveal_strlit("fork_child_max_steps");
        assert("fork_child_max_steps"@.len() != "compaction_preserve_recent_tokens"@.len());
        reveal_strlit("fork_wait_timeout_secs");
        assert("fork_wait_timeout_secs"@.len() != "compaction_preserve_recent_tokens"@.len());
        reveal_strlit("extension_bridge_token");
        assert("extension_bridge_token"@.len() != "compaction_preserve_recent_tokens"@.len());
        reveal_strlit("extension_bridge_port");
        assert("extension_bridge_port"@.len() != "compaction_preserve_recent_tokens"@.len());
        reveal_strlit("browser_backend");
        assert("browser_backend"@.len() != "compaction_preserve_recent_tokens"@.len());
        reveal_strlit("compaction_prune_protect_tokens");
        assert("compaction_prune_protect_tokens"@.len() != "compaction_preserve_recent_tokens"@.len());
        reveal_strlit("compaction_prune_max_output_chars");
        assert("compaction_prune_max_output_chars"@[13] != "compaction_preserve_recent_tokens"@[13]);
    }
    assert(key_kind("compaction_preserve_recent_messages_floor"@) == Some(ValueKind::U32)) by {
        reveal_strlit("compaction_preserve_recent_messages_floor");
        reveal_strlit("headless");
        assert("headless"@.len() != "compaction_preserve_recent_messages_floor"@.len());
        reveal_strlit("max_steps");
        assert("max_steps"@.len() != "compaction_preserve_recent_messages_floor"@.len());
        reveal_strlit("model");
        assert("model"@.len() != "compaction_preserve_recent_messages_floor"@.len());
        reveal_strlit("reasoning_effort");
        assert("reasoning_effort"@.len() != "compaction_preserve_recent_messages_floor"@.len());
        reveal_strlit("output_dir");
        assert("output_dir"@.len() != "compaction_preserve_recent_messages_floor"@.len());
        reveal_strlit("auto_compact_input_tokens");
        assert("auto_compact_input_tokens"@.len() != "compaction_preserve_recent_messages_floor"@.len());
        reveal_strlit("max_concurrent_per_parent");
        assert("max_concurrent_per_parent"@.len() != "compaction_preserve_recent_messages_floor"@.len());
        reveal_strlit("max_fork_depth");
        assert("max_fork_depth"@.len() != "compaction_preserve_recent_messages_floor"@.len());
        reveal_strlit("max_total_agents");
        assert("max_total_agents"@.len() != "compaction_preserve_recent_messages_floor"@.len());
        reveal_strlit("fork_child_max_steps");
        assert("fork_child_max_steps"@.len() != "compaction_preserve_recent_messages_floor"@.len());
        reveal_strlit("fork_wait_timeout_secs");
        assert("fork_wait_timeout_secs"@.len() != "compaction_preserve_recent_messages_floor"@.len());
        reveal_strlit("extension_bridge_token");
        assert("extension_bridge_token"@.len() != "compaction_preserve_recent_messages_floor"@.len());
        reveal_strlit("extension_bridge_port");
        assert("extension_bridge_port"@.len() != "compaction_preserve_recent_messages_floor"@.len());
        reveal_strlit("browser_backend");
        assert("browser_backend"@.len() != "compaction_preserve_recent_messages_floor"@.len());
        reveal_strlit("compaction_prune_protect_tokens");
        assert("compaction_prune_protect_tokens"@.len() != "compaction_preserve_recent_messages_floor"@.len());
        reveal_strlit("compaction_prune_max_output_chars");
        assert("compaction_prune_max_output_chars"@.len() != "compaction_preserve_recent_messages_floor"@.len());
        reveal_strlit("compaction_preserve_recent_tokens");
        assert("compaction_preserve_recent_tokens"@.len() != "compaction_preserve_recent_messages_floor"@.len());
    }
    assert(key_kind("compaction_max_summary_chars"@) == Some(ValueKind::U64)) by {
        reveal_strlit("compaction_max_summary_chars");
        reveal_strlit("headless");
        assert("headless"@.len() != "compaction_max_summary_chars"@.len());
        reveal_strlit("max_steps");
        assert("max_steps"@.len() != "compaction_max_summary_chars"@.len());
        reveal_strlit("model");
        assert("model"@.len() != "compaction_max_summary_chars"@.len());
        reveal_strlit("reasoning_effort");
        assert("reasoning_effort"@.len() != "compaction_max_summary_chars"@.len());
        reveal_strlit("output_dir");
        assert("output_dir"@.len() != "compaction_max_summary_chars"@.len());
        reveal_strlit("auto_compact_input_tokens");
        assert("auto_compact_input_tokens"@.len() != "compaction_max_summary_chars"@.len());
        reveal_strlit("max_concurrent_per_parent");
        assert("max_concurrent_per_parent"@.len() != "compaction_max_summary_chars"@.len());
        reveal_strlit("max_fork_depth");
        assert("max_fork_depth"@.len() != "compaction_max_summary_chars"@.len());
        reveal_strlit("max_total_agents");
        assert("max_total_agents"@.len() != "compaction_max_summary_chars"@.len());
        reveal_strlit("fork_child_max_steps");
        assert("fork_child_max_steps"@.len() != "compaction_max_summary_chars"@.len());
        reveal_strlit("fork_wait_timeout_secs");
        assert("fork_wait_timeout_secs"@.len() != "compaction_max_summary_chars"@.len());
        reveal_strlit("extension_bridge_token");
        assert("extension_bridge_token"@.len() != "compaction_max_summary_chars"@.len());
        reveal_strlit("extension_bridge_port");
        assert("extension_bridge_port"@.len() != "compaction_max_summary_chars"@.len());
        reveal_strlit("browser_backend");
        assert("browser_backend"@.len() != "compaction_max_summary_chars"@.len());
        reveal_strlit("compaction_prune_protect_tokens");
        assert("compaction_prune_protect_tokens"@.len() != "compaction_max_summary_chars"@.len());
        reveal_strlit("compaction_prune_max_output_chars");
        assert("compaction_prune_max_output_chars"@.len() != "compaction_max_summary_chars"@.len());
        reveal_strlit("compaction_preserve_recent_tokens");
        assert("compaction_preserve_recent_tokens"@.len() != "compaction_max_summary_chars"@.len());
        reveal_strlit("compaction_preserve_recent_messages_floor");
        assert("compaction_preserve_recent_messages_floor"@.len() != "compaction_max_summary_chars"@.len());
    }
    assert(key_kind("compaction_llm_summarization"@) == Some(ValueKind::Bool)) by {
        reveal_strlit("compaction_llm_summarization");
        reveal_strlit("headless");
        assert("headless"@.len() != "compaction_llm_summarization"@.len());
        reveal_strlit("max_steps");
        assert("max_steps"@.len() != "compaction_llm_summarization"@.len());
        reveal_strlit("model");
        assert("model"@.len() != "compaction_llm_summarization"@.len());
        reveal_strlit("reasoning_effort");
        assert("reasoning_effort"@.len() != "compaction_llm_summarization"@.len());
        reveal_strlit("output_dir");
        assert("output_dir"@.len() != "compaction_llm_summarization"@.len());
        reveal_strlit("auto_compact_input_tokens");
        assert("auto_compact_input_tokens"@.len() != "compaction_llm_summarization"@.len());
        reveal_strlit("max_concurrent_per_parent");
        assert("max_concurrent_per_parent"@.len() != "compaction_llm_summarization"@.len());
        reveal_strlit("max_fork_depth");
        assert("max_fork_depth"@.len() != "compaction_llm_summarization"@.len());
        reveal_strlit("max_total_agents");
        assert("max_total_agents"@.len() != "compaction_llm_summarization"@.len());
        reveal_strlit("fork_child_max_steps");
        assert("fork_child_max_steps"@.len() != "compaction_llm_summarization"@.len());
        reveal_strlit("fork_wait_timeout_secs");
        assert("fork_wait_timeout_secs"@.len() != "compaction_llm_summarization"@.len());
        reveal_strlit("extension_bridge_token");
        assert("extension_bridge_token"@.len() != "compaction_llm_summarization"@.len());
        reveal_strlit("extension_bridge_port");
        assert("extension_bridge_port"@.len() != "compaction_llm_summarization"@.len());
        reveal_strlit("browser_backend");
        assert("browser_backend"@.len() != "compaction_llm_summarization"@.len());
        reveal_strlit("compaction_prune_protect_tokens");
        assert("compaction_prune_protect_tokens"@.len() != "compaction_llm_summarization"@.len());
        reveal_strlit("compaction_prune_max_output_chars");
        assert("compaction_prune_max_output_chars"@.len() != "compaction_llm_summarization"@.len());
        reveal_strlit("compaction_preserve_recent_tokens");
        assert("compaction_preserve_recent_tokens"@.len() != "compaction_llm_summarization"@.len());
        reveal_strlit("compaction_preserve_recent_messages_floor");
        assert("compaction_preserve_recent_messages_floor"@.len() != "compaction_llm_summarization"@.len());
        reveal_strlit("compaction_max_summary_chars");
        assert("compaction_max_summary_chars"@[11] != "compaction_llm_summarization"@[11]);
    }
    assert(key_kind("optimization.html_diff_mode"@) == Some(ValueKind::Bool)) by {
        reveal_strlit("optimization.html_diff_mode");
        reveal_strlit("headless");
        assert("headless"@.len() != "optimization.html_diff_mode"@.len());
        reveal_strlit("max_steps");
        assert("max_steps"@.len() != "optimization.html_diff_mode"@.len());
        reveal_strlit("model");
        assert("model"@.len() != "optimization.html_diff_mode"@.len());
        reveal_strlit("reasoning_effort");
        assert("reasoning_effort"@.len() != "optimization.html_diff_mode"@.len());
        reveal_strlit("output_dir");
        assert("output_dir"@.len() != "optimization.html_diff_mode"@.len());
        reveal_strlit("auto_compact_input_tokens");
        assert("auto_compact_input_tokens"@.len() != "optimization.html_diff_mode"@.len());
        reveal_strlit("max_concurrent_per_parent");
        assert("max_concurrent_per_parent"@.len() != "optimization.html_diff_mode"@.len());
        reveal_strlit("max_fork_depth");
        assert("max_fork_depth"@.len() != "optimization.html_diff_mode"@.len());
        reveal_strlit("max_total_agents");
        assert("max_total_agents"@.len() != "optimization.html_diff_mode"@.len());
        reveal_strlit("fork_child_max_steps");
        assert("fork_child_max_steps"@.len() != "optimization.html_diff_mode"@.len());
        reveal_strlit("fork_wait_timeout_secs");
        assert("fork_wait_timeout_secs"@.len() != "optimization.html_diff_mode"@.len());
        reveal_strlit("extension_bridge_token");
        assert("extension_bridge_token"@.len() != "optimization.html_diff_mode"@.len());
        reveal_strlit("extension_bridge_port");
        assert("extension_bridge_port"@.len() != "optimization.html_diff_mode"@.len());
        reveal_strlit("browser_backend");
        assert("browser_backend"@.len() != "optimization.html_diff_mode"@.len());
        reveal_strlit("compaction_prune_protect_tokens");
        assert("compaction_prune_protect_tokens"@.len() != "optimization.html_diff_mode"@.len());
        reveal_strlit("compaction_prune_max_output_chars");
        assert("compaction_prune_max_output_chars"@.len() != "optimization.html_diff_mode"@.len());
        reveal_strlit("compaction_preserve_recent_tokens");
        assert("compaction_preserve_recent_tokens"@.len() != "optimization.html_diff_mode"@.len());
        reveal_strlit("compaction_preserve_recent_messages_floor");
        assert("compaction_preserve_recent_messages_floor"@.len() != "optimization.html_diff_mode"@.len());
        reveal_strlit("compaction_max_summary_chars");
        assert("compaction_max_summary_chars"@.len() != "optimization.html_diff_mode"@.len());
        reveal_strlit("compaction_llm_summarization");
        assert("compaction_llm_summarization"@.len() != "optimization.html_diff_mode"@.len());
    }
    assert(key_kind("optimization.loop_detection"@) == Some(ValueKind::Bool)) by {
        reveal_strlit("optimization.loop_detection");
        reveal_strlit("headless");
        assert("headless"@.len() != "optimization.loop_detection"@.len());
        reveal_strlit("max_steps");
        assert("max_steps"@.len() != "optimization.loop_detection"@.len());
        reveal_strlit("model");
        assert("model"@.len() != "optimization.loop_detection"@.len());
        reveal_strlit("reasoning_effort");
        assert("reasoning_effort"@.len() != "optimization.loop_detection"@.len());
        reveal_strlit("output_dir");
        assert("output_dir"@.len() != "optimization.loop_detection"@.len());
        reveal_strlit("auto_compact_input_tokens");
        assert("auto_compact_input_tokens"@.len() != "optimization.loop_detection"@.len());
        reveal_strlit("max_concurrent_per_parent");
        assert("max_concurrent_per_parent"@.len() != "optimization.loop_detection"@.len());
        reveal_strlit("max_fork_depth");
        assert("max_fork_depth"@.len() != "optimization.loop_detection"@.len());
        reveal_strlit("max_total_agents");
        assert("max_total_agents"@.len() != "optimization.loop_detection"@.len());
        reveal_strlit("fork_child_max_steps");
        assert("fork_child_max_steps"@.len() != "optimization.loop_detection"@.len());
        reveal_strlit("fork_wait_timeout_secs");
        assert("fork_wait_timeout_secs"@.len() != "optimization.loop_detection"@.len());
        reveal_strlit("extension_bridge_token");
        assert("extension_bridge_token"@.len() != "optimization.loop_detection"@.len());
        reveal_strlit("extension_bridge_port");
        assert("extension_bridge_port"@.len() != "optimization.loop_detection"@.len());
        reveal_strlit("browser_backend");
        assert("browser_backend"@.len() != "optimization.loop_detection"@.len());
        reveal_strlit("compaction_prune_protect_tokens");
        assert("compaction_prune_protect_tokens"@.len() != "optimization.loop_detection"@.len());
        reveal_strlit("compaction_prune_max_output_chars");
        assert("compaction_prune_max_output_chars"@.len() != "optimization.loop_detection"@.len());
        reveal_strlit("compaction_preserve_recent_tokens");
        assert("compaction_preserve_recent_tokens"@.len() != "optimization.loop_detection"@.len());
        reveal_strlit("compaction_preserve_recent_messages_floor");
        assert("compaction_preserve_recent_messages_floor"@.len() != "optimization.loop_detection"@.len());
        reveal_strlit("compaction_max_summary_chars");
        assert("compaction_max_summary_chars"@.len() != "optimization.loop_detection"@.len());
        reveal_strlit("compaction_llm_summarization");
        assert("compaction_llm_summarization"@.len() != "optimization.loop_detection"@.len());
        reveal_strlit("optimization.html_diff_mode");
        assert("optimization.html_diff_mode"@[13] != "optimization.loop_detection"@[13]);
    }
    assert(key_kind("optimization.loop_detection_window"@) == Some(ValueKind::Usize)) by {
        reveal_strlit("optimization.loop_detection_window");
        reveal_strlit("headless");
        assert("headless"@.len() != "optimization.loop_detection_window"@.len());
        reveal_strlit("max_steps");
        assert("max_steps"@.len() != "optimization.loop_detection_window"@.len());
        reveal_strlit("model");
        assert("model"@.len() != "optimization.loop_detection_window"@.len());
        reveal_strlit("reasoning_effort");
        assert("reasoning_effort"@.len() != "optimization.loop_detection_window"@.len());
        reveal_strlit("output_dir");
        assert("output_dir"@.len() != "optimization.loop_detection_window"@.len());
        reveal_strlit("auto_compact_input_tokens");
        assert("auto_compact_input_tokens"@.len() != "optimization.loop_detection_window"@.len());
        reveal_strlit("max_concurrent_per_parent");
        assert("max_concurrent_per_parent"@.len() != "optimization.loop_detection_window"@.len());
        reveal_strlit("max_fork_depth");
        assert("max_fork_depth"@.len() != "optimization.loop_detection_window"@.len());
        reveal_strlit("max_total_agents");
        assert("max_total_agents"@.len() != "optimization.loop_detection_window"@.len());
        reveal_strlit("fork_child_max_steps");
        assert("fork_child_max_steps"@.len() != "optimization.loop_detection_window"@.len());
        reveal_strlit("fork_wait_timeout_secs");
        assert("fork_wait_timeout_secs"@.len() != "optimization.loop_detection_window"@.len());
        reveal_strlit("extension_bridge_token");
        assert("extension_bridge_token"@.len() != "optimization.loop_detection_window"@.len());
        reveal_strlit("extension_bridge_port");
        assert("extension_bridge_port"@.len() != "optimization.loop_detection_window"@.len());
        reveal_strlit("browser_backend");
        assert("browser_backend"@.len() != "optimization.loop_detection_window"@.len());
        reveal_strlit("compaction_prune_protect_tokens");
        assert("compaction_prune_protect_tokens"@.len() != "optimization.loop_detection_window"@.len());
        reveal_strlit("compaction_prune_max_output_chars");
        assert("compaction_prune_max_output_chars"@.len() != "optimization.loop_detection_window"@.len());
        reveal_strlit("compaction_preserve_recent_tokens");
        assert("compaction_preserve_recent_tokens"@.len() != "optimization.loop_detection_window"@.len());
        reveal_strlit("compaction_preserve_recent_messages_floor");
        assert("compaction_preserve_recent_messages_floor"@.len() != "optimization.loop_detection_window"@.len());
        reveal_strlit("compaction_max_summary_chars");
        assert("compaction_max_summary_chars"@.len() != "optimization.loop_detection_window"@.len());
        reveal_strlit("compaction_llm_summarization");
        assert("compaction_llm_summarization"@.len() != "optimization.loop_detection_window"@.len());
        reveal_strlit("optimization.html_diff_mode");
        assert("optimization.html_diff_mode"@.len() != "optimization.loop_detection_window"@.len());
        reveal_strlit("optimization.loop_detection");
        assert("optimization.loop_detection"@.len() != "optimization.loop_detection_window"@.len());
    }
    assert(key_kind("optimization.loop_nudge_threshold"@) == Some(ValueKind::Usize)) by {
        reveal_strlit("optimization.loop_nudge_threshold");
        reveal_strlit("headless");
        assert("headless"@.len() != "optimization.loop_nudge_threshold"@.len());
        reveal_strlit("max_steps");
        assert("max_steps"@.len() != "optimization.loop_nudge_threshold"@.len());
        reveal_strlit("model");
        assert("model"@.len() != "optimization.loop_nudge_threshold"@.len());
        reveal_strlit("reasoning_effort");
        assert("reasoning_effort"@.len() != "optimization.loop_nudge_threshold"@.len());
        reveal_strlit("output_dir");
        assert("output_dir"@.len() != "optimization.loop_nudge_threshold"@.len());
        reveal_strlit("auto_compact_input_tokens");
        assert("auto_compact_input_tokens"@.len() != "optimization.loop_nudge_threshold"@.len());
        reveal_strlit("max_concurrent_per_parent");
        assert("max_concurrent_per_parent"@.len() != "optimization.loop_nudge_threshold"@.len());
        reveal_strlit("max_fork_depth");
        assert("max_fork_depth"@.len() != "optimization.loop_nudge_threshold"@.len());
        reveal_strlit("max_total_agents");
        assert("max_total_agents"@.len() != "optimization.loop_nudge_threshold"@.len());
        reveal_strlit("fork_child_max_steps");
        assert("fork_child_max_steps"@.len() != "optimization.loop_nudge_threshold"@.len());
        reveal_strlit("fork_wait_timeout_secs");
        assert("fork_wait_timeout_secs"@.len() != "optimization.loop_nudge_threshold"@.len());
        reveal_strlit("extension_bridge_token");
        assert("extension_bridge_token"@.len() != "optimization.loop_nudge_threshold"@.len());
        reveal_strlit("extension_bridge_port");
        assert("extension_bridge_port"@.len() != "optimization.loop_nudge_threshold"@.len());
        reveal_strlit("browser_backend");
        assert("browser_backend"@.len() != "optimization.loop_nudge_threshold"@.len());
        reveal_strlit("compaction_prune_protect_tokens");
        assert("compaction_prune_protect_tokens"@.len() != "optimization.loop_nudge_threshold"@.len());
        reveal_strlit("compaction_prune_max_output_chars");
        assert("compaction_prune_max_output_chars"@[0] != "optimization.loop_nudge_threshold"@[0]);
        reveal_strlit("compaction_preserve_recent_tokens");
        assert("compaction_preserve_recent_tokens"@[0] != "optimization.loop_nudge_threshold"@[0]);
        reveal_strlit("compaction_preserve_recent_messages_floor");
        assert("compaction_preserve_recent_messages_floor"@.len() != "optimization.loop_nudge_threshold"@.len());
        reveal_strlit("compaction_max_summary_chars");
        assert("compaction_max_summary_chars"@.len() != "optimization.loop_nudge_threshold"@.len());
        reveal_strlit("compaction_llm_summarization");
        assert("compaction_llm_summarization"@.len() != "optimization.loop_nudge_threshold"@.len());
        reveal_strlit("optimization.html_diff_mode");
        assert("optimization.html_diff_mode"@.len() != "optimization.loop_nudge_threshold"@.len());
        reveal_strlit("optimization.loop_detection");
        assert("optimization.loop_detection"@.len() != "optimization.loop_nudge_threshold"@.len());
        reveal_strlit("optimization.loop_detection_window");
        assert("optimization.loop_detection_window"@.len() != "optimization.loop_nudge_threshold"@.len());
    }
    assert(key_kind("optimization.page_fingerprinting"@) == Some(ValueKind::Bool)) by {
        reveal_strlit("optimization.page_fingerprinting");
        reveal_strlit("headless");
        assert("headless"@.len() != "optimization.page_fingerprinting"@.len());
        reveal_strlit("max_steps");
        assert("max_steps"@.len() != "optimization.page_fingerprinting"@.len());
        reveal_strlit("model");
        assert("model"@.len() != "optimization.page_fingerprinting"@.len());
        reveal_strlit("reasoning_effort");
        assert("reasoning_effort"@.len() != "optimization.page_fingerprinting"@.len());
        reveal_strlit("output_dir");
        assert("output_dir"@.len() != "optimization.page_fingerprinting"@.len());
        reveal_strlit("auto_compact_input_tokens");
        assert("auto_compact_input_tokens"@.len() != "optimization.page_fingerprinting"@.len());
        reveal_strlit("max_concurrent_per_parent");
        assert("max_concurrent_per_parent"@.len() != "optimization.page_fingerprinting"@.len());
        reveal_strlit("max_fork_depth");
        assert("max_fork_depth"@.len() != "optimization.page_fingerprinting"@.len());
        reveal_strlit("max_total_agents");
        assert("max_total_agents"@.len() != "optimization.page_fingerprinting"@.len());
        reveal_strlit("fork_child_max_steps");
        assert("fork_child_max_steps"@.len() != "optimization.page_fingerprinting"@.len());
        reveal_strlit("fork_wait_timeout_secs");
        assert("fork_wait_timeout_secs"@.len() != "optimization.page_fingerprinting"@.len());
        reveal_strlit("extension_bridge_token");
        assert("extension_bridge_token"@.len() != "optimization.page_fingerprinting"@.len());
        reveal_strlit("extension_bridge_port");
        assert("extension_bridge_port"@.len() != "optimization.page_fingerprinting"@.len());
        reveal_strlit("browser_backend");
        assert("browser_backend"@.len() != "optimization.page_fingerprinting"@.len());
        reveal_strlit("compaction_prune_protect_tokens");
        assert("compaction_prune_protect_tokens"@.len() != "optimization.page_fingerprinting"@.len());
        reveal_strlit("compaction_prune_max_output_chars");
        assert("compaction_prune_max_output_chars"@.len() != "optimization.page_fingerprinting"@.len());
        reveal_strlit("compaction_preserve_recent_tokens");
        assert("compaction_preserve_recent_tokens"@.len() != "optimization.page_fingerprinting"@.len());
        reveal_strlit("compaction_preserve_recent_messages_floor");
        assert("compaction_preserve_recent_messages_floor"@.len() != "optimization.page_fingerprinting"@.len());
        reveal_strlit("compaction_max_summary_chars");
        assert("compaction_max_summary_chars"@.len() != "optimization.page_fingerprinting"@.len());
        reveal_strlit("compaction_llm_summarization");
        assert("compaction_llm_summarization"@.len() != "optimization.page_fingerprinting"@.len());
        reveal_strlit("optimization.html_diff_mode");
        assert("optimization.html_diff_mode"@.len() != "optimization.page_fingerprinting"@.len());
        reveal_strlit("optimization.loop_detection");
        assert("optimization.loop_detection"@.len() != "optimization.page_fingerprinting"@.len());
        reveal_strlit("optimization.loop_detection_window");
        assert("optimization.loop_detection_window"@.len() != "optimization.page_fingerprinting"@.len());
        reveal_strlit("optimization.loop_nudge_threshold");
        assert("optimization.loop_nudge_threshold"@.len() != "optimization.page_fingerprinting"@.len());
    }
    assert(key_kind("optimization.planning_interval"@) == Some(ValueKind::Usize)) by {
        reveal_strlit("optimization.planning_interval");
        reveal_strlit("headless");
        assert("headless"@.len() != "optimization.planning_interval"@.len());
        reveal_strlit("max_steps");
        assert("max_steps"@.len() != "optimization.planning_interval"@.len());
        reveal_strlit("model");
        assert("model"@.len() != "optimization.planning_interval"@.len());
        reveal_strlit("reasoning_effort");
        assert("reasoning_effort"@.len() != "optimization.planning_interval"@.len());
        reveal_strlit("output_dir");
        assert("output_dir"@.len() != "optimization.planning_interval"@.len());
        reveal_strlit("auto_compact_input_tokens");
        assert("auto_compact_input_tokens"@.len() != "optimization.planning_interval"@.len());
        reveal_strlit("max_concurrent_per_parent");
        assert("max_concurrent_per_parent"@.len() != "optimization.planning_interval"@.len());
        reveal_strlit("max_fork_depth");
        assert("max_fork_depth"@.len() != "optimization.planning_interval"@.len());
        reveal_strlit("max_total_agents");
        assert("max_total_agents"@.len() != "optimization.planning_interval"@.len());
        reveal_strlit("fork_child_max_steps");
        assert("fork_child_max_steps"@.len() != "optimization.planning_interval"@.len());
        reveal_strlit("fork_wait_timeout_secs");
        assert("fork_wait_timeout_secs"@.len() != "optimization.planning_interval"@.len());
        reveal_strlit("extension_bridge_token");
        assert("extension_bridge_token"@.len() != "optimization.planning_interval"@.len());
        reveal_strlit("extension_bridge_port");
        assert("extension_bridge_port"@.len() != "optimization.planning_interval"@.len());
        reveal_strlit("browser_backend");
        assert("browser_backend"@.len() != "optimization.planning_interval"@.len());
        reveal_strlit("compaction_prune_protect_tokens");
        assert("compaction_prune_protect_tokens"@.len() != "optimization.planning_interval"@.len());
        reveal_strlit("compaction_prune_max_output_chars");
        assert("compaction_prune_max_output_chars"@.len() != "optimization.planning_interval"@.len());
        reveal_strlit("compaction_preserve_recent_tokens");
        assert("compaction_preserve_recent_tokens"@.len() != "optimization.planning_interval"@.len());
        reveal_strlit("compaction_preserve_recent_messages_floor");
        assert("compaction_preserve_recent_messages_floor"@.len() != "optimization.planning_interval"@.len());
        reveal_strlit("compaction_max_summary_chars");
        assert("compaction_max_summary_chars"@.len() != "optimization.planning_interval"@.len());
        reveal_strlit("compaction_llm_summarization");
        assert("compaction_llm_summarization"@.len() != "optimization.planning_interval"@.len());
        reveal_strlit("optimization.html_diff_mode");
        assert("optimization.html_diff_mode"@.len() != "optimization.planning_interval"@.len());
        reveal_strlit("optimization.loop_detection");
        assert("optimization.loop_detection"@.len() != "optimization.planning_interval"@.len());
        reveal_strlit("optimization.loop_detection_window");
        assert("optimization.loop_detection_window"@.len() != "optimization.planning_interval"@.len());
        reveal_strlit("optimization.loop_nudge_threshold");
        assert("optimization.loop_nudge_threshold"@.len() != "optimization.planning_interval"@.len());
        reveal_strlit("optimization.page_fingerprinting");
        assert("optimization.page_fingerprinting"@.len() != "optimization.planning_interval"@.len());
    }
    assert(key_kind("optimization.failure_classification"@) == Some(ValueKind::Bool)) by {
        reveal_strlit("optimization.failure_classification");
        reveal_strlit("headless");
        assert("headless"@.len() != "optimization.failure_classification"@.len());
        reveal_strlit("max_steps");
        assert("max_steps"@.len() != "optimization.failure_classification"@.len());
        reveal_strlit("model");
        assert("model"@.len() != "optimization.failure_classification"@.len());
        reveal_strlit("reasoning_effort");
        assert("reasoning_effort"@.len() != "optimization.failure_classification"@.len());
        reveal_strlit("output_dir");
        assert("output_dir"@.len() != "optimization.failure_classification"@.len());
        reveal_strlit("auto_compact_input_tokens");
        assert("auto_compact_input_tokens"@.len() != "optimization.failure_classification"@.len());
        reveal_strlit("max_concurrent_per_parent");
        assert("max_concurrent_per_parent"@.len() != "optimization.failure_classification"@.len());
        reveal_strlit("max_fork_depth");
        assert("max_fork_depth"@.len() != "optimization.failure_classification"@.len());
        reveal_strlit("max_total_agents");
        assert("max_total_agents"@.len() != "optimization.failure_classification"@.len());
        reveal_strlit("fork_child_max_steps");
        assert("fork_child_max_steps"@.len() != "optimization.failure_classification"@.len());
        reveal_strlit("fork_wait_timeout_secs");
        assert("fork_wait_timeout_secs"@.len() != "optimization.failure_classification"@.len());
        reveal_strlit("extension_bridge_token");
        assert("extension_bridge_token"@.len() != "optimization.failure_classification"@.len());
        reveal_strlit("extension_bridge_port");
        assert("extension_bridge_port"@.len() != "optimization.failure_classification"@.len());
        reveal_strlit("browser_backend");
        assert("browser_backend"@.len() != "optimization.failure_classification"@.len());
        reveal_strlit("compaction_prune_protect_tokens");
        assert("compaction_prune_protect_tokens"@.len() != "optimization.failure_classification"@.len());
        reveal_strlit("compaction_prune_max_output_chars");
        assert("compaction_prune_max_output_chars"@.len() != "optimization.failure_classification"@.len());
        reveal_strlit("compaction_preserve_recent_tokens");
        assert("compaction_preserve_recent_tokens"@.len() != "optimization.failure_classification"@.len());
        reveal_strlit("compaction_preserve_recent_messages_floor");
        assert("compaction_preserve_recent_messages_floor"@.len() != "optimization.failure_classification"@.len());
        reveal_strlit("compaction_max_summary_chars");
        assert("compaction_max_summary_chars"@.len() != "optimization.failure_classification"@.len());
        reveal_strlit("compaction_llm_summarization");
        assert("compaction_llm_summarization"@.len() != "optimization.failure_classification"@.len());
        reveal_strlit("optimization.html_diff_mode");
        assert("optimization.html_diff_mode"@.len() != "optimization.failure_classification"@.len());
        reveal_strlit("optimization.loop_detection");
        assert("optimization.loop_detection"@.len() != "optimization.failure_classification"@.len());
        reveal_strlit("optimization.loop_detection_window");
        assert("optimization.loop_detection_window"@.len() != "optimization.failure_classification"@.len());
        reveal_strlit("optimization.loop_nudge_threshold");
        assert("optimization.loop_nudge_threshold"@.len() != "optimization.failure_classification"@.len());
        reveal_strlit("optimization.page_fingerprinting");
        assert("optimization.page_fingerprinting"@.len() != "optimization.failure_classification"@.len());
        reveal_strlit("optimization.planning_interval");
        assert("optimization.planning_interval"@.len() != "optimization.failure_classification"@.len());
    }
    assert(key_kind("optimization.self_healing"@) == Some(ValueKind::Bool)) by {
        reveal_strlit("optimization.self_healing");
        reveal_strlit("headless");
        assert("headless"@.len() != "optimization.self_healing"@.len());
        reveal_strlit("max_steps");
        assert("max_steps"@.len() != "optimization.self_healing"@.len());
        reveal_strlit("model");
        assert("model"@.len() != "optimization.self_healing"@.len());
        reveal_strlit("reasoning_effort");
        assert("reasoning_effort"@.len() != "optimization.self_healing"@.len());
        reveal_strlit("output_dir");
        assert("output_dir"@.len() != "optimization.self_healing"@.len());
        reveal_strlit("auto_compact_input_tokens");
        assert("auto_compact_input_tokens"@[0] != "optimization.self_healing"@[0]);
        reveal_strlit("max_concurrent_per_parent");
        assert("max_concurrent_per_parent"@[0] != "optimization.self_healing"@[0]);
        reveal_strlit("max_fork_depth");
        assert("max_fork_depth"@.len() != "optimization.self_healing"@.len());
        reveal_strlit("max_total_agents");
        assert("max_total_agents"@.len() != "optimization.self_healing"@.len());
        reveal_strlit("fork_child_max_steps");
        assert("fork_child_max_steps"@.len() != "optimization.self_healing"@.len());
        reveal_strlit("fork_wait_timeout_secs");
        assert("fork_wait_timeout_secs"@.len() != "optimization.self_healing"@.len());
        reveal_strlit("extension_bridge_token");
        assert("extension_bridge_token"@.len() != "optimization.self_healing"@.len());
        reveal_strlit("extension_bridge_port");
        assert("extension_bridge_port"@.len() != "optimization.self_healing"@.len());
        reveal_strlit("browser_backend");
        assert("browser_backend"@.len() != "optimization.self_healing"@.len());
        reveal_strlit("compaction_prune_protect_tokens");
        assert("compaction_prune_protect_tokens"@.len() != "optimization.self_healing"@.len());
        reveal_strlit("compaction_prune_max_output_chars");
        assert("compaction_prune_max_output_chars"@.len() != "optimization.self_healing"@.len());
        reveal_strlit("compaction_preserve_recent_tokens");
        assert("compaction_preserve_recent_tokens"@.len() != "optimization.self_healing"@.len());
        reveal_strlit("compaction_preserve_recent_messages_floor");
        assert("compaction_preserve_recent_messages_floor"@.len() != "optimization.self_healing"@.len());
        reveal_strlit("compaction_max_summary_chars");
        assert("compaction_max_summary_chars"@.len() != "optimization.self_healing"@.len());
        reveal_strlit("compaction_llm_summarization");
        assert("compaction_llm_summarization"@.len() != "optimization.self_healing"@.len());
        reveal_strlit("optimization.html_diff_mode");
        assert("optimization.html_diff_mode"@.len() != "optimization.self_healing"@.len());
        reveal_strlit("optimization.loop_detection");
        assert("optimization.loop_detection"@.len() != "optimization.self_healing"@.len());
        reveal_strlit("optimization.loop_detection_window");
        assert("optimization.loop_detection_window"@.len() != "optimization.self_healing"@.len());
        reveal_strlit("optimization.loop_nudge_threshold");
        assert("optimization.loop_nudge_threshold"@.len() != "optimization.self_healing"@.len());
        reveal_strlit("optimization.page_fingerprinting");
        assert("optimization.page_fingerprinting"@.len() != "optimization.self_healing"@.len());
        reveal_strlit("optimization.planning_interval");
        assert("optimization.planning_interval"@.len() != "optimization.self_healing"@.len());
        reveal_strlit("optimization.failure_classification");
        assert("optimization.failure_classification"@.len() != "optimization.self_healing"@.len());
    }
    assert(key_kind("optimization.self_healing_max_retries"@) == Some(ValueKind::Usize)) by {
        reveal_strlit("optimization.self_healing_max_retries");
        reveal_strlit("headless");
        assert("headless"@.len() != "optimization.self_healing_max_retries"@.len());
        reveal_strlit("max_steps");
        assert("max_steps"@.len() != "optimization.self_healing_max_retries"@.len());
        reveal_strlit("model");
        assert("model"@.len() != "optimization.self_healing_max_retries"@.len());
        reveal_strlit("reasoning_effort");
        assert("reasoning_effort"@.len() != "optimization.self_healing_max_retries"@.len());
        reveal_strlit("output_dir");
        assert("output_dir"@.len() != "optimization.self_healing_max_retries"@.len());
        reveal_strlit("auto_compact_input_tokens");
        assert("auto_compact_input_tokens"@.len() != "optimization.self_healing_max_retries"@.len());
        reveal_strlit("max_concurrent_per_parent");
        assert("max_concurrent_per_parent"@.len() != "optimization.self_healing_max_retries"@.len());
        reveal_strlit("max_fork_depth");
        assert("max_fork_depth"@.len() != "optimization.self_healing_max_retries"@.len());
        reveal_strlit("max_total_agents");
        assert("max_total_agents"@.len() != "optimization.self_healing_max_retries"@.len());
        reveal_strlit("fork_child_max_steps");
        assert("fork_child_max_steps"@.len() != "optimization.self_healing_max_retries"@.len());
        reveal_strlit("fork_wait_timeout_secs");
        assert("fork_wait_timeout_secs"@.len() != "optimization.self_healing_max_retries"@.len());
        reveal_strlit("extension_bridge_token");
        assert("extension_bridge_token"@.len() != "optimization.self_healing_max_retries"@.len());
        reveal_strlit("extension_bridge_port");
        assert("extension_bridge_port"@.len() != "optimization.self_healing_max_retries"@.len());
        reveal_strlit("browser_backend");
        assert("browser_backend"@.len() != "optimization.self_healing_max_retries"@.len());
        reveal_strlit("compaction_prune_protect_tokens");
        assert("compaction_prune_protect_tokens"@.len() != "optimization.self_healing_max_retries"@.len());
        reveal_strlit("compaction_prune_max_output_chars");
        assert("compaction_prune_max_output_chars"@.len() != "optimization.self_healing_max_retries"@.len());
        reveal_strlit("compaction_preserve_recent_tokens");
        assert("compaction_preserve_recent_tokens"@.len() != "optimization.self_healing_max_retries"@.len());
        reveal_strlit("compaction_preserve_recent_messages_floor");
        assert("compaction_preserve_recent_messages_floor"@.len() != "optimization.self_healing_max_retries"@.len());
        reveal_strlit("compaction_max_summary_chars");
        assert("compaction_max_summary_chars"@.len() != "optimization.self_healing_max_retries"@.len());
        reveal_strlit("compaction_llm_summarization");
        assert("compaction_llm_summarization"@.len() != "optimization.self_healing_max_retries"@.len());
        reveal_strlit("optimization.html_diff_mode");
        assert("optimization.html_diff_mode"@.len() != "optimization.self_healing_max_retries"@.len());
        reveal_strlit("optimization.loop_detection");
        assert("optimization.loop_detection"@.len() != "optimization.self_healing_max_retries"@.len());
        reveal_strlit("optimization.loop_detection_window");
        assert("optimization.loop_detection_window"@.len() != "optimization.self_healing_max_retries"@.len());
        reveal_strlit("optimization.loop_nudge_threshold");
        assert("optimization.loop_nudge_threshold"@.len() != "optimization.self_healing_max_retries"@.len());
        reveal_strlit("optimization.page_fingerprinting");
        assert("optimization.page_fingerprinting"@.len() != "optimization.self_healing_max_retries"@.len());
        reveal_strlit("optimization.planning_interval");
        assert("optimization.planning_interval"@.len() != "optimization.self_healing_max_retries"@.len());
        reveal_strlit("optimization.failure_classification");
        assert("optimization.failure_classification"@.len() != "optimization.self_healing_max_retries"@.len());
        reveal_strlit("optimization.self_healing");
        assert("optimization.self_healing"@.len() != "optimization.self_healing_max_retries"@.len());
    }
    assert(key_kind("optimization.action_caching"@) == Some(ValueKind::Bool)) by {
        reveal_strlit("optimization.action_caching");
        reveal_strlit("headless");
        assert("headless"@.len() != "optimization.action_caching"@.len());
        reveal_strlit("max_steps");
        assert("max_steps"@.len() != "optimization.action_caching"@.len());
        reveal_strlit("model");
        assert("model"@.len() != "optimization.action_caching"@.len());
        reveal_strlit("reasoning_effort");
        assert("reasoning_effort"@.len() != "optimization.action_caching"@.len());
        reveal_strlit("output_dir");
        assert("output_dir"@.len() != "optimization.action_caching"@.len());
        reveal_strlit("auto_compact_input_tokens");
        assert("auto_compact_input_tokens"@.len() != "optimization.action_caching"@.len());
        reveal_strlit("max_concurrent_per_parent");
        assert("max_concurrent_per_parent"@.len() != "optimization.action_caching"@.len());
        reveal_strlit("max_fork_depth");
        assert("max_fork_depth"@.len() != "optimization.action_caching"@.len());
        reveal_strlit("max_total_agents");
        assert("max_total_agents"@.len() != "optimization.action_caching"@.len());
        reveal_strlit("fork_child_max_steps");
        assert("fork_child_max_steps"@.len() != "optimization.action_caching"@.len());
        reveal_strlit("fork_wait_timeout_secs");
        assert("fork_wait_timeout_secs"@.len() != "optimization.action_caching"@.len());
        reveal_strlit("extension_bridge_token");
        assert("extension_bridge_token"@.len() != "optimization.action_caching"@.len());
        reveal_strlit("extension_bridge_port");
        assert("extension_bridge_port"@.len() != "optimization.action_caching"@.len());
        reveal_strlit("browser_backend");
        assert("browser_backend"@.len() != "optimization.action_caching"@.len());
        reveal_strlit("compaction_prune_protect_tokens");
        assert("compaction_prune_protect_tokens"@.len() != "optimization.action_caching"@.len());
        reveal_strlit("compaction_prune_max_output_chars");
        assert("compaction_prune_max_output_chars"@.len() != "optimization.action_caching"@.len());
        reveal_strlit("compaction_preserve_recent_tokens");
        assert("compaction_preserve_recent_tokens"@.len() != "optimization.action_caching"@.len());
        reveal_strlit("compaction_preserve_recent_messages_floor");
        assert("compaction_preserve_recent_messages_floor"@.len() != "optimization.action_caching"@.len());
        reveal_strlit("compaction_max_summary_chars");
        assert("compaction_max_summary_chars"@.len() != "optimization.action_caching"@.len());
        reveal_strlit("compaction_llm_summarization");
        assert("compaction_llm_summarization"@.len() != "optimization.action_caching"@.len());
        reveal_strlit("optimization.html_diff_mode");
        assert("optimization.html_diff_mode"@[13] != "optimization.action_caching"@[13]);
        reveal_strlit("optimization.loop_detection");
        assert("optimization.loop_detection"@[13] != "optimization.action_caching"@[13]);
        reveal_strlit("optimization.loop_detection_window");
        assert("optimization.loop_detection_window"@.len() != "optimization.action_caching"@.len());
        reveal_strlit("optimization.loop_nudge_threshold");
        assert("optimization.loop_nudge_threshold"@.len() != "optimization.action_caching"@.len());
        reveal_strlit("optimization.page_fingerprinting");
        assert("optimization.page_fingerprinting"@.len() != "optimization.action_caching"@.len());
        reveal_strlit("optimization.planning_interval");
        assert("optimization.planning_interval"@.len() != "optimization.action_caching"@.len());
        reveal_strlit("optimization.failure_classification");
        assert("optimization.failure_classification"@.len() != "optimization.action_caching"@.len());
        reveal_strlit("optimization.self_healing");
        assert("optimization.self_healing"@.len() != "optimization.action_caching"@.len());
        reveal_strlit("optimization.self_healing_max_retries");
        assert("optimization.self_healing_max_retries"@.len() != "optimization.action_caching"@.len());
    }
    assert(key_kind("optimization.action_cache_ttl_secs"@) == Some(ValueKind::U64)) by {
        reveal_strlit("optimization.action_cache_ttl_secs");
        reveal_strlit("headless");
        assert("headless"@.len() != "optimization.action_cache_ttl_secs"@.len());
        reveal_strlit("max_steps");
        assert("max_steps"@.len() != "optimization.action_cache_ttl_secs"@.len());
        reveal_strlit("model");
        assert("model"@.len() != "optimization.action_cache_ttl_secs"@.len());
        reveal_strlit("reasoning_effort");
        assert("reasoning_effort"@.len() != "optimization.action_cache_ttl_secs"@.len());
        reveal_strlit("output_dir");
        assert("output_dir"@.len() != "optimization.action_cache_ttl_secs"@.len());
        reveal_strlit("auto_compact_input_tokens");
        assert("auto_compact_input_tokens"@.len() != "optimization.action_cache_ttl_secs"@.len());
        reveal_strlit("max_concurrent_per_parent");
        assert("max_concurrent_per_parent"@.len() != "optimization.action_cache_ttl_secs"@.len());
        reveal_strlit("max_fork_depth");
        assert("max_fork_depth"@.len() != "optimization.action_cache_ttl_secs"@.len());
        reveal_strlit("max_total_agents");
        assert("max_total_agents"@.len() != "optimization.action_cache_ttl_secs"@.len());
        reveal_strlit("fork_child_max_steps");
        assert("fork_child_max_steps"@.len() != "optimization.action_cache_ttl_secs"@.len());
        reveal_strlit("fork_wait_timeout_secs");
        assert("fork_wait_timeout_secs"@.len() != "optimization.action_cache_ttl_secs"@.len());
        reveal_strlit("extension_bridge_token");
        assert("extension_bridge_token"@.len() != "optimization.action_cache_ttl_secs"@.len());
        reveal_strlit("extension_bridge_port");
        assert("extension_bridge_port"@.len() != "optimization.action_cache_ttl_secs"@.len());
        reveal_strlit("browser_backend");
        assert("browser_backend"@.len() != "optimization.action_cache_ttl_secs"@.len());
        reveal_strlit("compaction_prune_protect_tokens");
        assert("compaction_prune_protect_tokens"@.len() != "optimization.action_cache_ttl_secs"@.len());
        reveal_strlit("compaction_prune_max_output_chars");
        assert("compaction_prune_max_output_chars"@.len() != "optimization.action_cache_ttl_secs"@.len());
        reveal_strlit("compaction_preserve_recent_tokens");
        assert("compaction_preserve_recent_tokens"@.len() != "optimization.action_cache_ttl_secs"@.len());
        reveal_strlit("compaction_preserve_recent_messages_floor");
        assert("compaction_preserve_recent_messages_floor"@.len() != "optimization.action_cache_ttl_secs"@.len());
        reveal_strlit("compaction_max_summary_chars");
        assert("compaction_max_summary_chars"@.len() != "optimization.action_cache_ttl_secs"@.len());
        reveal_strlit("compaction_llm_summarization");
        assert("compaction_llm_summarization"@.len() != "optimization.action_cache_ttl_secs"@.len());
        reveal_strlit("optimization.html_diff_mode");
        assert("optimization.html_diff_mode"@.len() != "optimization.action_cache_ttl_secs"@.len());
        reveal_strlit("optimization.loop_detection");
        assert("optimization.loop_detection"@.len() != "optimization.action_cache_ttl_secs"@.len());
        reveal_strlit("optimization.loop_detection_window");
        assert("optimization.loop_detection_window"@[13] != "optimization.action_cache_ttl_secs"@[13]);
        reveal_strlit("optimization.loop_nudge_threshold");
        assert("optimization.loop_nudge_threshold"@.len() != "optimization.action_cache_ttl_secs"@.len());
        reveal_strlit("optimization.page_fingerprinting");
        assert("optimization.page_fingerprinting"@.len() != "optimization.action_cache_ttl_secs"@.len());
        reveal_strlit("optimization.planning_interval");
        assert("optimization.planning_interval"@.len() != "optimization.action_cache_ttl_secs"@.len());
        reveal_strlit("optimization.failure_classification");
        assert("optimization.failure_classification"@.len() != "optimization.action_cache_ttl_secs"@.len());
        reveal_strlit("optimization.self_healing");
        assert("optimization.self_healing"@.len() != "optimization.action_cache_ttl_secs"@.len());
        reveal_strlit("optimization.self_healing_max_retries");
        assert("optimization.self_healing_max_retries"@.len() != "optimization.action_cache_ttl_secs"@.len());
        reveal_strlit("optimization.action_caching");
        assert("optimization.action_caching"@.len() != "optimization.action_cache_ttl_secs"@.len());
    }
    assert(key_kind("optimization.confidence_tracking"@) == Some(ValueKind::Bool)) by {
        reveal_strlit("optimization.confidence_tracking");
        reveal_strlit("headless");
        assert("headless"@.len() != "optimization.confidence_tracking"@.len());
        reveal_strlit("max_steps");
        assert("max_steps"@.len() != "optimization.confidence_tracking"@.len());
        reveal_strlit("model");
        assert("model"@.len() != "optimization.confidence_tracking"@.len());
        reveal_strlit("reasoning_effort");
        assert("reasoning_effort"@.len() != "optimization.confidence_tracking"@.len());
        reveal_strlit("output_dir");
        assert("output_dir"@.len() != "optimization.confidence_tracking"@.len());
        reveal_strlit("auto_compact_input_tokens");
        assert("auto_compact_input_tokens"@.len() != "optimization.confidence_tracking"@.len());
        reveal_strlit("max_concurrent_per_parent");
        assert("max_concurrent_per_parent"@.len() != "optimization.confidence_tracking"@.len());
        reveal_strlit("max_fork_depth");
        assert("max_fork_depth"@.len() != "optimization.confidence_tracking"@.len());
        reveal_strlit("max_total_agents");
        assert("max_total_agents"@.len() != "optimization.confidence_tracking"@.len());
        reveal_strlit("fork_child_max_steps");
        assert("fork_child_max_steps"@.len() != "optimization.confidence_tracking"@.len());
        reveal_strlit("fork_wait_timeout_secs");
        assert("fork_wait_timeout_secs"@.len() != "optimization.confidence_tracking"@.len());
        reveal_strlit("extension_bridge_token");
        assert("extension_bridge_token"@.len() != "optimization.confidence_tracking"@.len());
        reveal_strlit("extension_bridge_port");
        assert("extension_bridge_port"@.len() != "optimization.confidence_tracking"@.len());
        reveal_strlit("browser_backend");
        assert("browser_backend"@.len() != "optimization.confidence_tracking"@.len());
        reveal_strlit("compaction_prune_protect_tokens");
        assert("compaction_prune_protect_tokens"@.len() != "optimization.confidence_tracking"@.len());
        reveal_strlit("compaction_prune_max_output_chars");
        assert("compaction_prune_max_output_chars"@.len() != "optimization.confidence_tracking"@.len());
        reveal_strlit("compaction_preserve_recent_tokens");
        assert("compaction_preserve_recent_tokens"@.len() != "optimization.confidence_tracking"@.len());
        reveal_strlit("compaction_preserve_recent_messages_floor");
        assert("compaction_preserve_recent_messages_floor"@.len() != "optimization.confidence_tracking"@.len());
        reveal_strlit("compaction_max_summary_chars");
        assert("compaction_max_summary_chars"@.len() != "optimization.confidence_tracking"@.len());
        reveal_strlit("compaction_llm_summarization");
        assert("compaction_llm_summarization"@.len() != "optimization.confidence_tracking"@.len());
        reveal_strlit("optimization.html_diff_mode");
        assert("optimization.html_diff_mode"@.len() != "optimization.confidence_tracking"@.len());
        reveal_strlit("optimization.loop_detection");
        assert("optimization.loop_detection"@.len() != "optimization.confidence_tracking"@.len());
        reveal_strlit("optimization.loop_detection_window");
        assert("optimization.loop_detection_window"@.len() != "optimization.confidence_tracking"@.len());
        reveal_strlit("optimization.loop_nudge_threshold");
        assert("optimization.loop_nudge_threshold"@.len() != "optimization.confidence_tracking"@.len());
        reveal_strlit("optimization.page_fingerprinting");
        assert("optimization.page_fingerprinting"@[13] != "optimization.confidence_tracking"@[13]);
        reveal_strlit("optimization.planning_interval");
        assert("optimization.planning_interval"@.len() != "optimization.confidence_tracking"@.len());
        reveal_strlit("optimization.failure_classification");
        assert("optimization.failure_classification"@.len() != "optimization.confidence_tracking"@.len());
        reveal_strlit("optimization.self_healing");
        assert("optimization.self_healing"@.len() != "optimization.confidence_tracking"@.len());
        reveal_strlit("optimization.self_healing_max_retries");
        assert("optimization.self_healing_max_retries"@.len() != "optimization.confidence_tracking"@.len());
        reveal_strlit("optimization.action_caching");
        assert("optimization.action_caching"@.len() != "optimization.confidence_tracking"@.len());
        reveal_strlit("optimization.action_cache_ttl_secs");
        assert("optimization.action_cache_ttl_secs"@.len() != "optimization.confidence_tracking"@.len());
    }
    assert(key_kind("optimization.compound_enrichment"@) == Some(ValueKind::Bool)) by {
        reveal_strlit("optimization.compound_enrichment");
        reveal_strlit("headless");
        assert("headless"@.len() != "optimization.compound_enrichment"@.len());
        reveal_strlit("max_steps");
        assert("max_steps"@.len() != "optimization.compound_enrichment"@.len());
        reveal_strlit("model");
        assert("model"@.len() != "optimization.compound_enrichment"@.len());
        reveal_strlit("reasoning_effort");
        assert("reasoning_effort"@.len() != "optimization.compound_enrichment"@.len());
        reveal_strlit("output_dir");
        assert("output_dir"@.len() != "optimization.compound_enrichment"@.len());
        reveal_strlit("auto_compact_input_tokens");
        assert("auto_compact_input_tokens"@.len() != "optimization.compound_enrichment"@.len());
        reveal_strlit("max_concurrent_per_parent");
        assert("max_concurrent_per_parent"@.len() != "optimization.compound_enrichment"@.len());
        reveal_strlit("max_fork_depth");
        assert("max_fork_depth"@.len() != "optimization.compound_enrichment"@.len());
        reveal_strlit("max_total_agents");
        assert("max_total_agents"@.len() != "optimization.compound_enrichment"@.len());
        reveal_strlit("fork_child_max_steps");
        assert("fork_child_max_steps"@.len() != "optimization.compound_enrichment"@.len());
        reveal_strlit("fork_wait_timeout_secs");
        assert("fork_wait_timeout_secs"@.len() != "optimization.compound_enrichment"@.len());
        reveal_strlit("extension_bridge_token");
        assert("extension_bridge_token"@.len() != "optimization.compound_enrichment"@.len());
        reveal_strlit("extension_bridge_port");
        assert("extension_bridge_port"@.len() != "optimization.compound_enrichment"@.len());
        reveal_strlit("browser_backend");
        assert("browser_backend"@.len() != "optimization.compound_enrichment"@.len());
        reveal_strlit("compaction_prune_protect_tokens");
        assert("compaction_prune_protect_tokens"@.len() != "optimization.compound_enrichment"@.len());
        reveal_strlit("compaction_prune_max_output_chars");
        assert("compaction_prune_max_output_chars"@.len() != "optimization.compound_enrichment"@.len());
        reveal_strlit("compaction_preserve_recent_tokens");
        assert("compaction_preserve_recent_tokens"@.len() != "optimization.compound_enrichment"@.len());
        reveal_strlit("compaction_preserve_recent_messages_floor");
        assert("compaction_preserve_recent_messages_floor"@.len() != "optimization.compound_enrichment"@.len());
        reveal_strlit("compaction_max_summary_chars");
        assert("compaction_max_summary_chars"@.len() != "optimization.compound_enrichment"@.len());
        reveal_strlit("compaction_llm_summarization");
        assert("compaction_llm_summarization"@.len() != "optimization.compound_enrichment"@.len());
        reveal_strlit("optimization.html_diff_mode");
        assert("optimization.html_diff_mode"@.len() != "optimization.compound_enrichment"@.len());
        reveal_strlit("optimization.loop_detection");
        assert("optimization.loop_detection"@.len() != "optimization.compound_enrichment"@.len());
        reveal_strlit("optimization.loop_detection_window");
        assert("optimization.loop_detection_window"@.len() != "optimization.compound_enrichment"@.len());
        reveal_strlit("optimization.loop_nudge_threshold");
        assert("optimization.loop_nudge_threshold"@.len() != "optimization.compound_enrichment"@.len());
        reveal_strlit("optimization.page_fingerprinting");
        assert("optimization.page_fingerprinting"@[13] != "optimization.compound_enrichment"@[13]);
        reveal_strlit("optimization.planning_interval");
        assert("optimization.planning_interval"@.len() != "optimization.compound_enrichment"@.len());
        reveal_strlit("optimization.failure_classification");
        assert("optimization.failure_classification"@.len() != "optimization.compound_enrichment"@.len());
        reveal_strlit("optimization.self_healing");
        assert("optimization.self_healing"@.len() != "optimization.compound_enrichment"@.len());
        reveal_strlit("optimization.self_healing_max_retries");
        assert("optimization.self_healing_max_retries"@.len() != "optimization.compound_enrichment"@.len());
        reveal_strlit("optimization.action_caching");
        assert("optimization.action_caching"@.len() != "optimization.compound_enrichment"@.len());
        reveal_strlit("optimization.action_cache_ttl_secs");
        assert("optimization.action_cache_ttl_secs"@.len() != "optimization.compound_enrichment"@.len());
        reveal_strlit("optimization.confidence_tracking");
        assert("optimization.confidence_tracking"@[15] != "optimization.compound_enrichment"@[15]);
    }
    assert(key_kind("optimization.budget_max_session_cost_usd"@) == Some(ValueKind::NullableFloat)) by {
        reveal_strlit("optimization.budget_max_session_cost_usd");
        reveal_strlit("headless");
        assert("headless"@.len() != "optimization.budget_max_session_cost_usd"@.len());
        reveal_strlit("max_steps");
        assert("max_steps"@.len() != "optimization.budget_max_session_cost_usd"@.len());
        reveal_strlit("model");
        assert("model"@.len() != "optimization.budget_max_session_cost_usd"@.len());
        reveal_strlit("reasoning_effort");
        assert("reasoning_effort"@.len() != "optimization.budget_max_session_cost_usd"@.len());
        reveal_strlit("output_dir");
        assert("output_dir"@.len() != "optimization.budget_max_session_cost_usd"@.len());
        reveal_strlit("auto_compact_input_tokens");
        assert("auto_compact_input_tokens"@.len() != "optimization.budget_max_session_cost_usd"@.len());
        reveal_strlit("max_concurrent_per_parent");
        assert("max_concurrent_per_parent"@.len() != "optimization.budget_max_session_cost_usd"@.len());
        reveal_strlit("max_fork_depth");
        assert("max_fork_depth"@.len() != "optimization.budget_max_session_cost_usd"@.len());
        reveal_strlit("max_total_agents");
        assert("max_total_agents"@.len() != "optimization.budget_max_session_cost_usd"@.len());
        reveal_strlit("fork_child_max_steps");
        assert("fork_child_max_steps"@.len() != "optimization.budget_max_session_cost_usd"@.len());
        reveal_strlit("fork_wait_timeout_secs");
        assert("fork_wait_timeout_secs"@.len() != "optimization.budget_max_session_cost_usd"@.len());
        reveal_strlit("extension_bridge_token");
        assert("extension_bridge_token"@.len() != "optimization.budget_max_session_cost_usd"@.len());
        reveal_strlit("extension_bridge_port");
        assert("extension_bridge_port"@.len() != "optimization.budget_max_session_cost_usd"@.len());
        reveal_strlit("browser_backend");
        assert("browser_backend"@.len() != "optimization.budget_max_session_cost_usd"@.len());
        reveal_strlit("compaction_prune_protect_tokens");
        assert("compaction_prune_protect_tokens"@.len() != "optimization.budget_max_session_cost_usd"@.len());
        reveal_strlit("compaction_prune_max_output_chars");
        assert("compaction_prune_max_output_chars"@.len() != "optimization.budget_max_session_cost_usd"@.len());
        reveal_strlit("compaction_preserve_recent_tokens");
        assert("compaction_preserve_recent_tokens"@.len() != "optimization.budget_max_session_cost_usd"@.len());
        reveal_strlit("compaction_preserve_recent_messages_floor");
        assert("compaction_preserve_recent_messages_floor"@.len() != "optimization.budget_max_session_cost_usd"@.len());
        reveal_strlit("compaction_max_summary_chars");
        assert("compaction_max_summary_chars"@.len() != "optimization.budget_max_session_cost_usd"@.len());
        reveal_strlit("compaction_llm_summarization");
        assert("compaction_llm_summarization"@.len() != "optimization.budget_max_session_cost_usd"@.len());
        reveal_strlit("optimization.html_diff_mode");
        assert("optimization.html_diff_mode"@.len() != "optimization.budget_max_session_cost_usd"@.len());
        reveal_strlit("optimization.loop_detection");
        assert("optimization.loop_detection"@.len() != "optimization.budget_max_session_cost_usd"@.len());
        reveal_strlit("optimization.loop_detection_window");
        assert("optimization.loop_detection_window"@.len() != "optimization.budget_max_session_cost_usd"@.len());
        reveal_strlit("optimization.loop_nudge_threshold");
        assert("optimization.loop_nudge_threshold"@.len() != "optimization.budget_max_session_cost_usd"@.len());
        reveal_strlit("optimization.page_fingerprinting");
        assert("optimization.page_fingerprinting"@.len() != "optimization.budget_max_session_cost_usd"@.len());
        reveal_strlit("optimization.planning_interval");
        assert("optimization.planning_interval"@.len() != "optimization.budget_max_session_cost_usd"@.len());
        reveal_strlit("optimization.failure_classification");
        assert("optimization.failure_classification"@.len() != "optimization.budget_max_session_cost_usd"@.len());
        reveal_strlit("optimization.self_healing");
        assert("optimization.self_healing"@.len() != "optimization.budget_max_session_cost_usd"@.len());
        reveal_strlit("optimization.self_healing_max_retries");
        assert("optimization.self_healing_max_retries"@.len() != "optimization.budget_max_session_cost_usd"@.len());
        reveal_strlit("optimization.action_caching");
        assert("optimization.action_caching"@.len() != "optimization.budget_max_session_cost_usd"@.len());
        reveal_strlit("optimization.action_cache_ttl_secs");
        assert("optimization.action_cache_ttl_secs"@.len() != "optimization.budget_max_session_cost_usd"@.len());
        reveal_strlit("optimization.confidence_tracking");
        assert("optimization.confidence_tracking"@.len() != "optimization.budget_max_session_cost_usd"@.len());
        reveal_strlit("optimization.compound_enrichment");
        assert("optimization.compound_enrichment"@.len() != "optimization.budget_max_session_cost_usd"@.len());
    }
    assert(key_kind("optimization.budget_enforcement"@) == Some(ValueKind::NullableEnum(AllowedValues::BudgetEnforcement))) by {
        reveal_strlit("optimization.budget_enforcement");
        reveal_strlit("headless");
        assert("headless"@.len() != "optimization.budget_enforcement"@.len());
        reveal_strlit("max_steps");
        assert("max_steps"@.len() != "optimization.budget_enforcement"@.len());
        reveal_strlit("model");
        assert("model"@.len() != "optimization.budget_enforcement"@.len());
        reveal_strlit("reasoning_effort");
        assert("reasoning_effort"@.len() != "optimization.budget_enforcement"@.len());
        reveal_strlit("output_dir");
        assert("output_dir"@.len() != "optimization.budget_enforcement"@.len());
        reveal_strlit("auto_compact_input_tokens");
        assert("auto_compact_input_tokens"@.len() != "optimization.budget_enforcement"@.len());
        reveal_strlit("max_concurrent_per_parent");
        assert("max_concurrent_per_parent"@.len() != "optimization.budget_enforcement"@.len());
        reveal_strlit("max_fork_depth");
        assert("max_fork_depth"@.len() != "optimization.budget_enforcement"@.len());
        reveal_strlit("max_total_agents");
        assert("max_total_agents"@.len() != "optimization.budget_enforcement"@.len());
        reveal_strlit("fork_child_max_steps");
        assert("fork_child_max_steps"@.len() != "optimization.budget_enforcement"@.len());
        reveal_strlit("fork_wait_timeout_secs");
        assert("fork_wait_timeout_secs"@.len() != "optimization.budget_enforcement"@.len());
        reveal_strlit("extension_bridge_token");
        assert("extension_bridge_token"@.len() != "optimization.budget_enforcement"@.len());
        reveal_strlit("extension_bridge_port");
        assert("extension_bridge_port"@.len() != "optimization.budget_enforcement"@.len());
        reveal_strlit("browser_backend");
        assert("browser_backend"@.len() != "optimization.budget_enforcement"@.len());
        reveal_strlit("compaction_prune_protect_tokens");
        assert("compaction_prune_protect_tokens"@[0] != "optimization.budget_enforcement"@[0]);
        reveal_strlit("compaction_prune_max_output_chars");
        assert("compaction_prune_max_output_chars"@.len() != "optimization.budget_enforcement"@.len());
        reveal_strlit("compaction_preserve_recent_tokens");
        assert("compaction_preserve_recent_tokens"@.len() != "optimization.budget_enforcement"@.len());
        reveal_strlit("compaction_preserve_recent_messages_floor");
        assert("compaction_preserve_recent_messages_floor"@.len() != "optimization.budget_enforcement"@.len());
        reveal_strlit("compaction_max_summary_chars");
        assert("compaction_max_summary_chars"@.len() != "optimization.budget_enforcement"@.len());
        reveal_strlit("compaction_llm_summarization");
        assert("compaction_llm_summarization"@.len() != "optimization.budget_enforcement"@.len());
        reveal_strlit("optimization.html_diff_mode");
        assert("optimization.html_diff_mode"@.len() != "optimization.budget_enforcement"@.len());
        reveal_strlit("optimization.loop_detection");
        assert("optimization.loop_detection"@.len() != "optimization.budget_enforcement"@.len());
        reveal_strlit("optimization.loop_detection_window");
        assert("optimization.loop_detection_window"@.len() != "optimization.budget_enforcement"@.len());
        reveal_strlit("optimization.loop_nudge_threshold");
        assert("optimization.loop_nudge_threshold"@.len() != "optimization.budget_enforcement"@.len());
        reveal_strlit("optimization.page_fingerprinting");
        assert("optimization.page_fingerprinting"@.len() != "optimization.budget_enforcement"@.len());
        reveal_strlit("optimization.planning_interval");
        assert("optimization.planning_interval"@.len() != "optimization.budget_enforcement"@.len());
        reveal_strlit("optimization.failure_classification");
        assert("optimization.failure_classification"@.len() != "optimization.budget_enforcement"@.len());
        reveal_strlit("optimization.self_healing");
        assert("optimization.self_healing"@.len() != "optimization.budget_enforcement"@.len());
        reveal_strlit("optimization.self_healing_max_retries");
        assert("optimization.self_healing_max_retries"@.len() != "optimization.budget_enforcement"@.len());
        reveal_strlit("optimization.action_caching");
        assert("optimization.action_caching"@.len() != "optimization.budget_enforcement"@.len());
        reveal_strlit("optimization.action_cache_ttl_secs");
        assert("optimization.action_cache_ttl_secs"@.len() != "optimization.budget_enforcement"@.len());
        reveal_strlit("optimization.confidence_tracking");
        assert("optimization.confidence_tracking"@.len() != "optimization.budget_enforcement"@.len());
        reveal_strlit("optimization.compound_enrichment");
        assert("optimization.compound_enrichment"@.len() != "optimization.budget_enforcement"@.len());
        reveal_strlit("optimization.budget_max_session_cost_usd");
        assert("optimization.budget_max_session_cost_usd"@.len() != "optimization.budget_enforcement"@.len());
    }
    assert(key_kind("optimization.budget_warn_threshold_pct"@) == Some(ValueKind::U32)) by {
        reveal_strlit("optimization.budget_warn_threshold_pct");
        reveal_strlit("headless");
        assert("headless"@.len() != "optimization.budget_warn_threshold_pct"@.len());
        reveal_strlit("max_steps");
        assert("max_steps"@.len() != "optimization.budget_warn_threshold_pct"@.len());
        reveal_strlit("model");
        assert("model"@.len() != "optimization.budget_warn_threshold_pct"@.len());
        reveal_strlit("reasoning_effort");
        assert("reasoning_effort"@.len() != "optimization.budget_warn_threshold_pct"@.len());
        reveal_strlit("output_dir");
        assert("output_dir"@.len() != "optimization.budget_warn_threshold_pct"@.len());
        reveal_strlit("auto_compact_input_tokens");
        assert("auto_compact_input_tokens"@.len() != "optimization.budget_warn_threshold_pct"@.len());
        reveal_strlit("max_concurrent_per_parent");
        assert("max_concurrent_per_parent"@.len() != "optimization.budget_warn_threshold_pct"@.len());
        reveal_strlit("max_fork_depth");
        assert("max_fork_depth"@.len() != "optimization.budget_warn_threshold_pct"@.len());
        reveal_strlit("max_total_agents");
        assert("max_total_agents"@.len() != "optimization.budget_warn_threshold_pct"@.len());
        reveal_strlit("fork_child_max_steps");
        assert("fork_child_max_steps"@.len() != "optimization.budget_warn_threshold_pct"@.len());
        reveal_strlit("fork_wait_timeout_secs");
        assert("fork_wait_timeout_secs"@.len() != "optimization.budget_warn_threshold_pct"@.len());
        reveal_strlit("extension_bridge_token");
        assert("extension_bridge_token"@.len() != "optimization.budget_warn_threshold_pct"@.len());
        reveal_strlit("extension_bridge_port");
        assert("extension_bridge_port"@.len() != "optimization.budget_warn_threshold_pct"@.len());
        reveal_strlit("browser_backend");
        assert("browser_backend"@.len() != "optimization.budget_warn_threshold_pct"@.len());
        reveal_strlit("compaction_prune_protect_tokens");
        assert("compaction_prune_protect_tokens"@.len() != "optimization.budget_warn_threshold_pct"@.len());
        reveal_strlit("compaction_prune_max_output_chars");
        assert("compaction_prune_max_output_chars"@.len() != "optimization.budget_warn_threshold_pct"@.len());
        reveal_strlit("compaction_preserve_recent_tokens");
        assert("compaction_preserve_recent_tokens"@.len() != "optimization.budget_warn_threshold_pct"@.len());
        reveal_strlit("compaction_preserve_recent_messages_floor");
        assert("compaction_preserve_recent_messages_floor"@.len() != "optimization.budget_warn_threshold_pct"@.len());
        reveal_strlit("compaction_max_summary_chars");
        assert("compaction_max_summary_chars"@.len() != "optimization.budget_warn_threshold_pct"@.len());
        reveal_strlit("compaction_llm_summarization");
        assert("compaction_llm_summarization"@.len() != "optimization.budget_warn_threshold_pct"@.len());
        reveal_strlit("optimization.html_diff_mode");
        assert("optimization.html_diff_mode"@.len() != "optimization.budget_warn_threshold_pct"@.len());
        reveal_strlit("optimization.loop_detection");
        assert("optimization.loop_detection"@.len() != "optimization.budget_warn_threshold_pct"@.len());
        reveal_strlit("optimization.loop_detection_window");
        assert("optimization.loop_detection_window"@.len() != "optimization.budget_warn_threshold_pct"@.len());
        reveal_strlit("optimization.loop_nudge_threshold");
        assert("optimization.loop_nudge_threshold"@.len() != "optimization.budget_warn_threshold_pct"@.len());
        reveal_strlit("optimization.page_fingerprinting");
        assert("optimization.page_fingerprinting"@.len() != "optimization.budget_warn_threshold_pct"@.len());
        reveal_strlit("optimization.planning_interval");
        assert("optimization.planning_interval"@.len() != "optimization.budget_warn_threshold_pct"@.len());
        reveal_strlit("optimization.failure_classification");
        assert("optimization.failure_classification"@.len() != "optimization.budget_warn_threshold_pct"@.len());
        reveal_strlit("optimization.self_healing");
        assert("optimization.self_healing"@.len() != "optimization.budget_warn_threshold_pct"@.len());
        reveal_strlit("optimization.self_healing_max_retries");
        assert("optimization.self_healing_max_retries"@.len() != "optimization.budget_warn_threshold_pct"@.len());
        reveal_strlit("optimization.action_caching");
        assert("optimization.action_caching"@.len() != "optimization.budget_warn_threshold_pct"@.len());
        reveal_strlit("optimization.action_cache_ttl_secs");
        assert("optimization.action_cache_ttl_secs"@.len() != "optimization.budget_warn_threshold_pct"@.len());
        reveal_strlit("optimization.confidence_tracking");
        assert("optimization.confidence_tracking"@.len() != "optimization.budget_warn_threshold_pct"@.len());
        reveal_strlit("optimization.compound_enrichment");
        assert("optimization.compound_enrichment"@.len() != "optimization.budget_warn_threshold_pct"@.len());
        reveal_strlit("optimization.budget_max_session_cost_usd");
        assert("optimization.budget_max_session_cost_usd"@.len() != "optimization.budget_warn_threshold_pct"@.len());
        reveal_strlit("optimization.budget_enforcement");
        assert("optimization.budget_enforcement"@.len() != "optimization.budget_warn_threshold_pct"@.len());
    }
    assert(key_kind("optimization.per_agent_cost_tracking"@) == Some(ValueKind::Bool)) by {
        reveal_strlit("optimization.per_agent_cost_tracking");
        reveal_strlit("headless");
        assert("headless"@.len() != "optimization.per_agent_cost_tracking"@.len());
        reveal_strlit("max_steps");
        assert("max_steps"@.len() != "optimization.per_agent_cost_tracking"@.len());
        reveal_strlit("model");
        assert("model"@.len() != "optimization.per_agent_cost_tracking"@.len());
        reveal_strlit("reasoning_effort");
        assert("reasoning_effort"@.len() != "optimization.per_agent_cost_tracking"@.len());
        reveal_strlit("output_dir");
        assert("output_dir"@.len() != "optimization.per_agent_cost_tracking"@.len());
        reveal_strlit("auto_compact_input_tokens");
        assert("auto_compact_input_tokens"@.len() != "optimization.per_agent_cost_tracking"@.len());
        reveal_strlit("max_concurrent_per_parent");
        assert("max_concurrent_per_parent"@.len() != "optimization.per_agent_cost_tracking"@.len());
        reveal_strlit("max_fork_depth");
        assert("max_fork_depth"@.len() != "optimization.per_agent_cost_tracking"@.len());
        reveal_strlit("max_total_agents");
        assert("max_total_agents"@.len() != "optimization.per_agent_cost_tracking"@.len());
        reveal_strlit("fork_child_max_steps");
        assert("fork_child_max_steps"@.len() != "optimization.per_agent_cost_tracking"@.len());
        reveal_strlit("fork_wait_timeout_secs");
        assert("fork_wait_timeout_secs"@.len() != "optimization.per_agent_cost_tracking"@.len());
        reveal_strlit("extension_bridge_token");
        assert("extension_bridge_token"@.len() != "optimization.per_agent_cost_tracking"@.len());
        reveal_strlit("extension_bridge_port");
        assert("extension_bridge_port"@.len() != "optimization.per_agent_cost_tracking"@.len());
        reveal_strlit("browser_backend");
        assert("browser_backend"@.len() != "optimization.per_agent_cost_tracking"@.len());
        reveal_strlit("compaction_prune_protect_tokens");
        assert("compaction_prune_protect_tokens"@.len() != "optimization.per_agent_cost_tracking"@.len());
        reveal_strlit("compaction_prune_max_output_chars");
        assert("compaction_prune_max_output_chars"@.len() != "optimization.per_agent_cost_tracking"@.len());
        reveal_strlit("compaction_preserve_recent_tokens");
        assert("compaction_preserve_recent_tokens"@.len() != "optimization.per_agent_cost_tracking"@.len());
        reveal_strlit("compaction_preserve_recent_messages_floor");
        assert("compaction_preserve_recent_messages_floor"@.len() != "optimization.per_agent_cost_tracking"@.len());
        reveal_strlit("compaction_max_summary_chars");
        assert("compaction_max_summary_chars"@.len() != "optimization.per_agent_cost_tracking"@.len());
        reveal_strlit("compaction_llm_summarization");
        assert("compaction_llm_summarization"@.len() != "optimization.per_agent_cost_tracking"@.len());
        reveal_strlit("optimization.html_diff_mode");
        assert("optimization.html_diff_mode"@.len() != "optimization.per_agent_cost_tracking"@.len());
        reveal_strlit("optimization.loop_detection");
        assert("optimization.loop_detection"@.len() != "optimization.per_agent_cost_tracking"@.len());
        reveal_strlit("optimization.loop_detection_window");
        assert("optimization.loop_detection_window"@.len() != "optimization.per_agent_cost_tracking"@.len());
        reveal_strlit("optimization.loop_nudge_threshold");
        assert("optimization.loop_nudge_threshold"@.len() != "optimization.per_agent_cost_tracking"@.len());
        reveal_strlit("optimization.page_fingerprinting");
        assert("optimization.page_fingerprinting"@.len() != "optimization.per_agent_cost_tracking"@.len());
        reveal_strlit("optimization.planning_interval");
        assert("optimization.planning_interval"@.len() != "optimization.per_agent_cost_tracking"@.len());
        reveal_strlit("optimization.failure_classification");
        assert("optimization.failure_classification"@.len() != "optimization.per_agent_cost_tracking"@.len());
        reveal_strlit("optimization.self_healing");
        assert("optimization.self_healing"@.len() != "optimization.per_agent_cost_tracking"@.len());
        reveal_strlit("optimization.self_healing_max_retries");
        assert("optimization.self_healing_max_retries"@.len() != "optimization.per_agent_cost_tracking"@.len());
        reveal_strlit("optimization.action_caching");
        assert("optimization.action_caching"@.len() != "optimization.per_agent_cost_tracking"@.len());
        reveal_strlit("optimization.action_cache_ttl_secs");
        assert("optimization.action_cache_ttl_secs"@.len() != "optimization.per_agent_cost_tracking"@.len());
        reveal_strlit("optimization.confidence_tracking");
        assert("optimization.confidence_tracking"@.len() != "optimization.per_agent_cost_tracking"@.len());
        reveal_strlit("optimization.compound_enrichment");
        assert("optimization.compound_enrichment"@.len() != "optimization.per_agent_cost_tracking"@.len());
        reveal_strlit("optimization.budget_max_session_cost_usd");
        assert("optimization.budget_max_session_cost_usd"@.len() != "optimization.per_agent_cost_tracking"@.len());
        reveal_strlit("optimization.budget_enforcement");
        assert("optimization.budget_enforcement"@.len() != "optimization.per_agent_cost_tracking"@.len());
        reveal_strlit("optimization.budget_warn_threshold_pct");
        assert("optimization.budget_warn_threshold_pct"@.len() != "optimization.per_agent_cost_tracking"@.len());
    }
    assert(key_kind("optimization.content_aware_profiles"@) == Some(ValueKind::Bool)) by {
        reveal_strlit("optimization.content_aware_profiles");
        reveal_strlit("headless");
        assert("headless"@.len() != "optimization.content_aware_profiles"@.len());
        reveal_strlit("max_steps");
        assert("max_steps"@.len() != "optimization.content_aware_profiles"@.len());
        reveal_strlit("model");
        assert("model"@.len() != "optimization.content_aware_profiles"@.len());
        reveal_strlit("reasoning_effort");
        assert("reasoning_effort"@.len() != "optimization.content_aware_profiles"@.len());
        reveal_strlit("output_dir");
        assert("output_dir"@.len() != "optimization.content_aware_profiles"@.len());
        reveal_strlit("auto_compact_input_tokens");
        assert("auto_compact_input_tokens"@.len() != "optimization.content_aware_profiles"@.len());
        reveal_strlit("max_concurrent_per_parent");
        assert("max_concurrent_per_parent"@.len() != "optimization.content_aware_profiles"@.len());
        reveal_strlit("max_fork_depth");
        assert("max_fork_depth"@.len() != "optimization.content_aware_profiles"@.len());
        reveal_strlit("max_total_agents");
        assert("max_total_agents"@.len() != "optimization.content_aware_profiles"@.len());
        reveal_strlit("fork_child_max_steps");
        assert("fork_child_max_steps"@.len() != "optimization.content_aware_profiles"@.len());
        reveal_strlit("fork_wait_timeout_secs");
        assert("fork_wait_timeout_secs"@.len() != "optimization.content_aware_profiles"@.len());
        reveal_strlit("extension_bridge_token");
        assert("extension_bridge_token"@.len() != "optimization.content_aware_profiles"@.len());
        reveal_strlit("extension_bridge_port");
        assert("extension_bridge_port"@.len() != "optimization.content_aware_profiles"@.len());
        reveal_strlit("browser_backend");
        assert("browser_backend"@.len() != "optimization.content_aware_profiles"@.len());
        reveal_strlit("compaction_prune_protect_tokens");
        assert("compaction_prune_protect_tokens"@.len() != "optimization.content_aware_profiles"@.len());
        reveal_strlit("compaction_prune_max_output_chars");
        assert("compaction_prune_max_output_chars"@.len() != "optimization.content_aware_profiles"@.len());
        reveal_strlit("compaction_preserve_recent_tokens");
        assert("compaction_preserve_recent_tokens"@.len() != "optimization.content_aware_profiles"@.len());
        reveal_strlit("compaction_preserve_recent_messages_floor");
        assert("compaction_preserve_recent_messages_floor"@.len() != "optimization.content_aware_profiles"@.len());
        reveal_strlit("compaction_max_summary_chars");
        assert("compaction_max_summary_chars"@.len() != "optimization.content_aware_profiles"@.len());
        reveal_strlit("compaction_llm_summarization");
        assert("compaction_llm_summarization"@.len() != "optimization.content_aware_profiles"@.len());
        reveal_strlit("optimization.html_diff_mode");
        assert("optimization.html_diff_mode"@.len() != "optimization.content_aware_profiles"@.len());
        reveal_strlit("optimization.loop_detection");
        assert("optimization.loop_detection"@.len() != "optimization.content_aware_profiles"@.len());
        reveal_strlit("optimization.loop_detection_window");
        assert("optimization.loop_detection_window"@.len() != "optimization.content_aware_profiles"@.len());
        reveal_strlit("optimization.loop_nudge_threshold");
        assert("optimization.loop_nudge_threshold"@.len() != "optimization.content_aware_profiles"@.len());
        reveal_strlit("optimization.page_fingerprinting");
        assert("optimization.page_fingerprinting"@.len() != "optimization.content_aware_profiles"@.len());
        reveal_strlit("optimization.planning_interval");
        assert("optimization.planning_interval"@.len() != "optimization.content_aware_profiles"@.len());
        reveal_strlit("optimization.failure_classification");
        assert("optimization.failure_classification"@[13] != "optimization.content_aware_profiles"@[13]);
        reveal_strlit("optimization.self_healing");
        assert("optimization.self_healing"@.len() != "optimization.content_aware_profiles"@.len());
        reveal_strlit("optimization.self_healing_max_retries");
        assert("optimization.self_healing_max_retries"@.len() != "optimization.content_aware_profiles"@.len());
        reveal_strlit("optimization.action_caching");
        assert("optimization.action_caching"@.len() != "optimization.content_aware_profiles"@.len());
        reveal_strlit("optimization.action_cache_ttl_secs");
        assert("optimization.action_cache_ttl_secs"@.len() != "optimization.content_aware_profiles"@.len());
        reveal_strlit("optimization.confidence_tracking");
        assert("optimization.confidence_tracking"@.len() != "optimization.content_aware_profiles"@.len());
        reveal_strlit("optimization.compound_enrichment");
        assert("optimization.compound_enrichment"@.len() != "optimization.content_aware_profiles"@.len());
        reveal_strlit("optimization.budget_max_session_cost_usd");
        assert("optimization.budget_max_session_cost_usd"@.len() != "optimization.content_aware_profiles"@.len());
        reveal_strlit("optimization.budget_enforcement");
        assert("optimization.budget_enforcement"@.len() != "optimization.content_aware_profiles"@.len());
        reveal_strlit("optimization.budget_warn_threshold_pct");
        assert("optimization.budget_warn_threshold_pct"@.len() != "optimization.content_aware_profiles"@.len());
        reveal_strlit("optimization.per_agent_cost_tracking");
        assert("optimization.per_agent_cost_tracking"@.len() != "optimization.content_aware_profiles"@.len());
    }
    assert(key_kind("script.max_steps"@) == Some(ValueKind::Usize)) by {
        reveal_strlit("script.max_steps");
        reveal_strlit("headless");
        assert("headless"@.len() != "script.max_steps"@.len());
        reveal_strlit("max_steps");
        assert("max_steps"@.len() != "script.max_steps"@.len());
        reveal_strlit("model");
        assert("model"@.len() != "script.max_steps"@.len());
        reveal_strlit("reasoning_effort");
        assert("reasoning_effort"@[0] != "script.max_steps"@[0]);
        reveal_strlit("output_dir");
        assert("output_dir"@.len() != "script.max_steps"@.len());
        reveal_strlit("auto_compact_input_tokens");
        assert("auto_compact_input_tokens"@.len() != "script.max_steps"@.len());
        reveal_strlit("max_concurrent_per_parent");
        assert("max_concurrent_per_parent"@.len() != "script.max_steps"@.len());
        reveal_strlit("max_fork_depth");
        assert("max_fork_depth"@.len() != "script.max_steps"@.len());
        reveal_strlit("max_total_agents");
        assert("max_total_agents"@[0] != "script.max_steps"@[0]);
        reveal_strlit("fork_child_max_steps");
        assert("fork_child_max_steps"@.len() != "script.max_steps"@.len());
        reveal_strlit("fork_wait_timeout_secs");
        assert("fork_wait_timeout_secs"@.len() != "script.max_steps"@.len());
        reveal_strlit("extension_bridge_token");
        assert("extension_bridge_token"@.len() != "script.max_steps"@.len());
        reveal_strlit("extension_bridge_port");
        assert("extension_bridge_port"@.len() != "script.max_steps"@.len());
        reveal_strlit("browser_backend");
        assert("browser_backend"@.len() != "script.max_steps"@.len());
        reveal_strlit("compaction_prune_protect_tokens");
        assert("compaction_prune_protect_tokens"@.len() != "script.max_steps"@.len());
        reveal_strlit("compaction_prune_max_output_chars");
        assert("compaction_prune_max_output_chars"@.len() != "script.max_steps"@.len());
        reveal_strlit("compaction_preserve_recent_tokens");
        assert("compaction_preserve_recent_tokens"@.len() != "script.max_steps"@.len());
        reveal_strlit("compaction_preserve_recent_messages_floor");
        assert("compaction_preserve_recent_messages_floor"@.len() != "script.max_steps"@.len());
        reveal_strlit("compaction_max_summary_chars");
        assert("compaction_max_summary_chars"@.len() != "script.max_steps"@.len());
        reveal_strlit("compaction_llm_summarization");
        assert("compaction_llm_summarization"@.len() != "script.max_steps"@.len());
        reveal_strlit("optimization.html_diff_mode");
        assert("optimization.html_diff_mode"@.len() != "script.max_steps"@.len());
        reveal_strlit("optimization.loop_detection");
        assert("optimization.loop_detection"@.len() != "script.max_steps"@.len());
        reveal_strlit("optimization.loop_detection_window");
        assert("optimization.loop_detection_window"@.len() != "script.max_steps"@.len());
        reveal_strlit("optimization.loop_nudge_threshold");
        assert("optimization.loop_nudge_threshold"@.len() != "script.max_steps"@.len());
        reveal_strlit("optimization.page_fingerprinting");
        assert("optimization.page_fingerprinting"@.len() != "script.max_steps"@.len());
        reveal_strlit("optimization.planning_interval");
        assert("optimization.planning_interval"@.len() != "script.max_steps"@.len());
        reveal_strlit("optimization.failure_classification");
        assert("optimization.failure_classification"@.len() != "script.max_steps"@.len());
        reveal_strlit("optimization.self_healing");
        assert("optimization.self_healing"@.len() != "script.max_steps"@.len());
        reveal_strlit("optimization.self_healing_max_retries");
        assert("optimization.self_healing_max_retries"@.len() != "script.max_steps"@.len());
        reveal_strlit("optimization.action_caching");
        assert("optimization.action_caching"@.len() != "script.max_steps"@.len());
        reveal_strlit("optimization.action_cache_ttl_secs");
        assert("optimization.action_cache_ttl_secs"@.len() != "script.max_steps"@.len());
        reveal_strlit("optimization.confidence_tracking");
        assert("optimization.confidence_tracking"@.len() != "script.max_steps"@.len());
        reveal_strlit("optimization.compound_enrichment");
        assert("optimization.compound_enrichment"@.len() != "script.max_steps"@.len());
        reveal_strlit("optimization.budget_max_session_cost_usd");
        assert("optimization.budget_max_session_cost_usd"@.len() != "script.max_steps"@.len());
        reveal_strlit("optimization.budget_enforcement");
        assert("optimization.budget_enforcement"@.len() != "script.max_steps"@.len());
        reveal_strlit("optimization.budget_warn_threshold_pct");
        assert("optimization.budget_warn_threshold_pct"@.len() != "script.max_steps"@.len());
        reveal_strlit("optimization.per_agent_cost_tracking");
        assert("optimization.per_agent_cost_tracking"@.len() != "script.max_steps"@.len());
        reveal_strlit("optimization.content_aware_profiles");
        assert("optimization.content_aware_profiles"@.len() != "script.max_steps"@.len());
    }
    assert(key_kind("script.max_timeout_secs"@) == Some(ValueKind::U64)) by {
        reveal_strlit("script.max_timeout_secs");
        reveal_strlit("headless");
        assert("headless"@.len() != "script.max_timeout_secs"@.len());
        reveal_strlit("max_steps");
        assert("max_steps"@.len() != "script.max_timeout_secs"@.len());
        reveal_strlit("model");
        assert("model"@.len() != "script.max_timeout_secs"@.len());
        reveal_strlit("reasoning_effort");
        assert("reasoning_effort"@.len() != "script.max_timeout_secs"@.len());
        reveal_strlit("output_dir");
        assert("output_dir"@.len() != "script.max_timeout_secs"@.len());
        reveal_strlit("auto_compact_input_tokens");
        assert("auto_compact_input_tokens"@.len() != "script.max_timeout_secs"@.len());
        reveal_strlit("max_concurrent_per_parent");
        assert("max_concurrent_per_parent"@.len() != "script.max_timeout_secs"@.len());
        reveal_strlit("max_fork_depth");
        assert("max_fork_depth"@.len() != "script.max_timeout_secs"@.len());
        reveal_strlit("max_total_agents");
        assert("max_total_agents"@.len() != "script.max_timeout_secs"@.len());
        reveal_strlit("fork_child_max_steps");
        assert("fork_child_max_steps"@.len() != "script.max_timeout_secs"@.len());
        reveal_strlit("fork_wait_timeout_secs");
        assert("fork_wait_timeout_secs"@.len() != "script.max_timeout_secs"@.len());
        reveal_strlit("extension_bridge_token");
        assert("extension_bridge_token"@.len() != "script.max_timeout_secs"@.len());
        reveal_strlit("extension_bridge_port");
        assert("extension_bridge_port"@.len() != "script.max_timeout_secs"@.len());
        reveal_strlit("browser_backend");
        assert("browser_backend"@.len() != "script.max_timeout_secs"@.len());
        reveal_strlit("compaction_prune_protect_tokens");
        assert("compaction_prune_protect_tokens"@.len() != "script.max_timeout_secs"@.len());
        reveal_strlit("compaction_prune_max_output_chars");
        assert("compaction_prune_max_output_chars"@.len() != "script.max_timeout_secs"@.len());
        reveal_strlit("compaction_preserve_recent_tokens");
        assert("compaction_preserve_recent_tokens"@.len() != "script.max_timeout_secs"@.len());
        reveal_strlit("compaction_preserve_recent_messages_floor");
        assert("compaction_preserve_recent_messages_floor"@.len() != "script.max_timeout_secs"@.len());
        reveal_strlit("compaction_max_summary_chars");
        assert("compaction_max_summary_chars"@.len() != "script.max_timeout_secs"@.len());
        reveal_strlit("compaction_llm_summarization");
        assert("compaction_llm_summarization"@.len() != "script.max_timeout_secs"@.len());
        reveal_strlit("optimization.html_diff_mode");
        assert("optimization.html_diff_mode"@.len() != "script.max_timeout_secs"@.len());
        reveal_strlit("optimization.loop_detection");
        assert("optimization.loop_detection"@.len() != "script.max_timeout_secs"@.len());
        reveal_strlit("optimization.loop_detection_window");
        assert("optimization.loop_detection_window"@.len() != "script.max_timeout_secs"@.len());
        reveal_strlit("optimization.loop_nudge_threshold");
        assert("optimization.loop_nudge_threshold"@.len() != "script.max_timeout_secs"@.len());
        reveal_strlit("optimization.page_fingerprinting");
        assert("optimization.page_fingerprinting"@.len() != "script.max_timeout_secs"@.len());
        reveal_strlit("optimization.planning_interval");
        assert("optimization.planning_interval"@.len() != "script.max_timeout_secs"@.len());
        reveal_strlit("optimization.failure_classification");
        assert("optimization.failure_classification"@.len() != "script.max_timeout_secs"@.len());
        reveal_strlit("optimization.self_healing");
        assert("optimization.self_healing"@.len() != "script.max_timeout_secs"@.len());
        reveal_strlit("optimization.self_healing_max_retries");
        assert("optimization.self_healing_max_retries"@.len() != "script.max_timeout_secs"@.len());
        reveal_strlit("optimization.action_caching");
        assert("optimization.action_caching"@.len() != "script.max_timeout_secs"@.len());
        reveal_strlit("optimization.action_cache_ttl_secs");
        assert("optimization.action_cache_ttl_secs"@.len() != "script.max_timeout_secs"@.len());
        reveal_strlit("optimization.confidence_tracking");
        assert("optimization.confidence_tracking"@.len() != "script.max_timeout_secs"@.len());
        reveal_strlit("optimization.compound_enrichment");
        assert("optimization.compound_enrichment"@.len() != "script.max_timeout_secs"@.len());
        reveal_strlit("optimization.budget_max_session_cost_usd");
        assert("optimization.budget_max_session_cost_usd"@.len() != "script.max_timeout_secs"@.len());
        reveal_strlit("optimization.budget_enforcement");
        assert("optimization.budget_enforcement"@.len() != "script.max_timeout_secs"@.len());
        reveal_strlit("optimization.budget_warn_threshold_pct");
        assert("optimization.budget_warn_threshold_pct"@.len() != "script.max_timeout_secs"@.len());
        reveal_strlit("optimization.per_agent_cost_tracking");
        assert("optimization.per_agent_cost_tracking"@.len() != "script.max_timeout_secs"@.len());
        reveal_strlit("optimization.content_aware_profiles");
        assert("optimization.content_aware_profiles"@.len() != "script.max_timeout_secs"@.len());
        reveal_strlit("script.max_steps");
        assert("script.max_steps"@.len() != "script.max_timeout_secs"@.len());
    }
    assert(key_kind("script.max_output_bytes"@) == Some(ValueKind::Usize)) by {
        reveal_strlit("script.max_output_bytes");
        reveal_strlit("headless");
        assert("headless"@.len() != "script.max_output_bytes"@.len());
        reveal_strlit("max_steps");
        assert("max_steps"@.len() != "script.max_output_bytes"@.len());
        reveal_strlit("model");
        assert("model"@.len() != "script.max_output_bytes"@.len());
        reveal_strlit("reasoning_effort");
        assert("reasoning_effort"@.len() != "script.max_output_bytes"@.len());
        reveal_strlit("output_dir");
        assert("output_dir"@.len() != "script.max_output_bytes"@.len());
        reveal_strlit("auto_compact_input_tokens");
        assert("auto_compact_input_tokens"@.len() != "script.max_output_bytes"@.len());
        reveal_strlit("max_concurrent_per_parent");
        assert("max_concurrent_per_parent"@.len() != "script.max_output_bytes"@.len());
        reveal_strlit("max_fork_depth");
        assert("max_fork_depth"@.len() != "script.max_output_bytes"@.len());
        reveal_strlit("max_total_agents");
        assert("max_total_agents"@.len() != "script.max_output_bytes"@.len());
        reveal_strlit("fork_child_max_steps");
        assert("fork_child_max_steps"@.len() != "script.max_output_bytes"@.len());
        reveal_strlit("fork_wait_timeout_secs");
        assert("fork_wait_timeout_secs"@.len() != "script.max_output_bytes"@.len());
        reveal_strlit("extension_bridge_token");
        assert("extension_bridge_token"@.len() != "script.max_output_bytes"@.len());
        reveal_strlit("extension_bridge_port");
        assert("extension_bridge_port"@.len() != "script.max_output_bytes"@.len());
        reveal_strlit("browser_backend");
        assert("browser_backend"@.len() != "script.max_output_bytes"@.len());
        reveal_strlit("compaction_prune_protect_tokens");
        assert("compaction_prune_protect_tokens"@.len() != "script.max_output_bytes"@.len());
        reveal_strlit("compaction_prune_max_output_chars");
        assert("compaction_prune_max_output_chars"@.len() != "script.max_output_bytes"@.len());
        reveal_strlit("compaction_preserve_recent_tokens");
        assert("compaction_preserve_recent_tokens"@.len() != "script.max_output_bytes"@.len());
        reveal_strlit("compaction_preserve_recent_messages_floor");
        assert("compaction_preserve_recent_messages_floor"@.len() != "script.max_output_bytes"@.len());
        reveal_strlit("compaction_max_summary_chars");
        assert("compaction_max_summary_chars"@.len() != "script.max_output_bytes"@.len());
        reveal_strlit("compaction_llm_summarization");
        assert("compaction_llm_summarization"@.len() != "script.max_output_bytes"@.len());
        reveal_strlit("optimization.html_diff_mode");
        assert("optimization.html_diff_mode"@.len() != "script.max_output_bytes"@.len());
        reveal_strlit("optimization.loop_detection");
        assert("optimization.loop_detection"@.len() != "script.max_output_bytes"@.len());
        reveal_strlit("optimization.loop_detection_window");
        assert("optimization.loop_detection_window"@.len() != "script.max_output_bytes"@.len());
        reveal_strlit("optimization.loop_nudge_threshold");
        assert("optimization.loop_nudge_threshold"@.len() != "script.max_output_bytes"@.len());
        reveal_strlit("optimization.page_fingerprinting");
        assert("optimization.page_fingerprinting"@.len() != "script.max_output_bytes"@.len());
        reveal_strlit("optimization.planning_interval");
        assert("optimization.planning_interval"@.len() != "script.max_output_bytes"@.len());
        reveal_strlit("optimization.failure_classification");
        assert("optimization.failure_classification"@.len() != "script.max_output_bytes"@.len());
        reveal_strlit("optimization.self_healing");
        assert("optimization.self_healing"@.len() != "script.max_output_bytes"@.len());
        reveal_strlit("optimization.self_healing_max_retries");
        assert("optimization.self_healing_max_retries"@.len() != "script.max_output_bytes"@.len());
        reveal_strlit("optimization.action_caching");
        assert("optimization.action_caching"@.len() != "script.max_output_bytes"@.len());
        reveal_strlit("optimization.action_cache_ttl_secs");
        assert("optimization.action_cache_ttl_secs"@.len() != "script.max_output_bytes"@.len());
        reveal_strlit("optimization.confidence_tracking");
        assert("optimization.confidence_tracking"@.len() != "script.max_output_bytes"@.len());
        reveal_strlit("optimization.compound_enrichment");
        assert("optimization.compound_enrichment"@.len() != "script.max_output_bytes"@.len());
        reveal_strlit("optimization.budget_max_session_cost_usd");
        assert("optimization.budget_max_session_cost_usd"@.len() != "script.max_output_bytes"@.len());
        reveal_strlit("optimization.budget_enforcement");
        assert("optimization.budget_enforcement"@.len() != "script.max_output_bytes"@.len());
        reveal_strlit("optimization.budget_warn_threshold_pct");
        assert("optimization.budget_warn_threshold_pct"@.len() != "script.max_output_bytes"@.len());
        reveal_strlit("optimization.per_agent_cost_tracking");
        assert("optimization.per_agent_cost_tracking"@.len() != "script.max_output_bytes"@.len());
        reveal_strlit("optimization.content_aware_profiles");
        assert("optimization.content_aware_profiles"@.len() != "script.max_output_bytes"@.len());
        reveal_strlit("script.max_steps");
        assert("script.max_steps"@.len() != "script.max_output_bytes"@.len());
        reveal_strlit("script.max_timeout_secs");
        assert("script.max_timeout_secs"@[11] != "script.max_output_bytes"@[11]);
    }
    assert(key_kind("script.max_parallel_branches"@) == Some(ValueKind::Usize)) by {
        reveal_strlit("script.max_parallel_branches");
        reveal_strlit("headless");
        assert("headless"@.len() != "script.max_parallel_branches"@.len());
        reveal_strlit("max_steps");
        assert("max_steps"@.len() != "script.max_parallel_branches"@.len());
        reveal_strlit("model");
        assert("model"@.len() != "script.max_parallel_branches"@.len());
        reveal_strlit("reasoning_effort");
        assert("reasoning_effort"@.len() != "script.max_parallel_branches"@.len());
        reveal_strlit("output_dir");
        assert("output_dir"@.len() != "script.max_parallel_branches"@.len());
        reveal_strlit("auto_compact_input_tokens");
        assert("auto_compact_input_tokens"@.len() != "script.max_parallel_branches"@.len());
        reveal_strlit("max_concurrent_per_parent");
        assert("max_concurrent_per_parent"@.len() != "script.max_parallel_branches"@.len());
        reveal_strlit("max_fork_depth");
        assert("max_fork_depth"@.len() != "script.max_parallel_branches"@.len());
        reveal_strlit("max_total_agents");
        assert("max_total_agents"@.len() != "script.max_parallel_branches"@.len());
        reveal_strlit("fork_child_max_steps");
        assert("fork_child_max_steps"@.len() != "script.max_parallel_branches"@.len());
        reveal_strlit("fork_wait_timeout_secs");
        assert("fork_wait_timeout_secs"@.len() != "script.max_parallel_branches"@.len());
        reveal_strlit("extension_bridge_token");
        assert("extension_bridge_token"@.len() != "script.max_parallel_branches"@.len());
        reveal_strlit("extension_bridge_port");
        assert("extension_bridge_port"@.len() != "script.max_parallel_branches"@.len());
        reveal_strlit("browser_backend");
        assert("browser_backend"@.len() != "script.max_parallel_branches"@.len());
        reveal_strlit("compaction_prune_protect_tokens");
        assert("compaction_prune_protect_tokens"@.len() != "script.max_parallel_branches"@.len());
        reveal_strlit("compaction_prune_max_output_chars");
        assert("compaction_prune_max_output_chars"@.len() != "script.max_parallel_branches"@.len());
        reveal_strlit("compaction_preserve_recent_tokens");
        assert("compaction_preserve_recent_tokens"@.len() != "script.max_parallel_branches"@.len());
        reveal_strlit("compaction_preserve_recent_messages_floor");
        assert("compaction_preserve_recent_messages_floor"@.len() != "script.max_parallel_branches"@.len());
        reveal_strlit("compaction_max_summary_chars");
        assert("compaction_max_summary_chars"@[0] != "script.max_parallel_branches"@[0]);
        reveal_strlit("compaction_llm_summarization");
        assert("compaction_llm_summarization"@[0] != "script.max_parallel_branches"@[0]);
        reveal_strlit("optimization.html_diff_mode");
        assert("optimization.html_diff_mode"@.len() != "script.max_parallel_branches"@.len());
        reveal_strlit("optimization.loop_detection");
        assert("optimization.loop_detection"@.len() != "script.max_parallel_branches"@.len());
        reveal_strlit("optimization.loop_detection_window");
        assert("optimization.loop_detection_window"@.len() != "script.max_parallel_branches"@.len());
        reveal_strlit("optimization.loop_nudge_threshold");
        assert("optimization.loop_nudge_threshold"@.len() != "script.max_parallel_branches"@.len());
        reveal_strlit("optimization.page_fingerprinting");
        assert("optimization.page_fingerprinting"@.len() != "script.max_parallel_branches"@.len());
        reveal_strlit("optimization.planning_interval");
        assert("optimization.planning_interval"@.len() != "script.max_parallel_branches"@.len());
        reveal_strlit("optimization.failure_classification");
        assert("optimization.failure_classification"@.len() != "script.max_parallel_branches"@.len());
        reveal_strlit("optimization.self_healing");
        assert("optimization.self_healing"@.len() != "script.max_parallel_branches"@.len());
        reveal_strlit("optimization.self_healing_max_retries");
        assert("optimization.self_healing_max_retries"@.len() != "script.max_parallel_branches"@.len());
        reveal_strlit("optimization.action_caching");
        assert("optimization.action_caching"@.len() != "script.max_parallel_branches"@.len());
        reveal_strlit("optimization.action_cache_ttl_secs");
        assert("optimization.action_cache_ttl_secs"@.len() != "script.max_parallel_branches"@.len());
        reveal_strlit("optimization.confidence_tracking");
        assert("optimization.confidence_tracking"@.len() != "script.max_parallel_branches"@.len());
        reveal_strlit("optimization.compound_enrichment");
        assert("optimization.compound_enrichment"@.len() != "script.max_parallel_branches"@.len());
        reveal_strlit("optimization.budget_max_session_cost_usd");
        assert("optimization.budget_max_session_cost_usd"@.len() != "script.max_parallel_branches"@.len());
        reveal_strlit("optimization.budget_enforcement");
        assert("optimization.budget_enforcement"@.len() != "script.max_parallel_branches"@.len());
        reveal_strlit("optimization.budget_warn_threshold_pct");
        assert("optimization.budget_warn_threshold_pct"@.len() != "script.max_parallel_branches"@.len());
        reveal_strlit("optimization.per_agent_cost_tracking");
        assert("optimization.per_agent_cost_tracking"@.len() != "script.max_parallel_branches"@.len());
        reveal_strlit("optimization.content_aware_profiles");
        assert("optimization.content_aware_profiles"@.len() != "script.max_parallel_branches"@.len());
        reveal_strlit("script.max_steps");
        assert("script.max_steps"@.len() != "script.max_parallel_branches"@.len());
        reveal_strlit("script.max_timeout_secs");
        assert("script.max_timeout_secs"@.len() != "script.max_parallel_branches"@.len());
        reveal_strlit("script.max_output_bytes");
        assert("script.max_output_bytes"@.len() != "script.max_parallel_branches"@.len());
    }
    assert(key_kind("script.max_concurrent_scripts"@) == Some(ValueKind::Usize)) by {
        reveal_strlit("script.max_concurrent_scripts");
        reveal_strlit("headless");
        assert("headless"@.len() != "script.max_concurrent_scripts"@.len());
        reveal_strlit("max_steps");
        assert("max_steps"@.len() != "script.max_concurrent_scripts"@.len());
        reveal_strlit("model");
        assert("model"@.len() != "script.max_concurrent_scripts"@.len());
        reveal_strlit("reasoning_effort");
        assert("reasoning_effort"@.len() != "script.max_concurrent_scripts"@.len());
        reveal_strlit("output_dir");
        assert("output_dir"@.len() != "script.max_concurrent_scripts"@.len());
        reveal_strlit("auto_compact_input_tokens");
        assert("auto_compact_input_tokens"@.len() != "script.max_concurrent_scripts"@.len());
        reveal_strlit("max_concurrent_per_parent");
        assert("max_concurrent_per_parent"@.len() != "script.max_concurrent_scripts"@.len());
        reveal_strlit("max_fork_depth");
        assert("max_fork_depth"@.len() != "script.max_concurrent_scripts"@.len());
        reveal_strlit("max_total_agents");
        assert("max_total_agents"@.len() != "script.max_concurrent_scripts"@.len());
        reveal_strlit("fork_child_max_steps");
        assert("fork_child_max_steps"@.len() != "script.max_concurrent_scripts"@.len());
        reveal_strlit("fork_wait_timeout_secs");
        assert("fork_wait_timeout_secs"@.len() != "script.max_concurrent_scripts"@.len());
        reveal_strlit("extension_bridge_token");
        assert("extension_bridge_token"@.len() != "script.max_concurrent_scripts"@.len());
        reveal_strlit("extension_bridge_port");
        assert("extension_bridge_port"@.len() != "script.max_concurrent_scripts"@.len());
        reveal_strlit("browser_backend");
        assert("browser_backend"@.len() != "script.max_concurrent_scripts"@.len());
        reveal_strlit("compaction_prune_protect_tokens");
        assert("compaction_prune_protect_tokens"@.len() != "script.max_concurrent_scripts"@.len());
        reveal_strlit("compaction_prune_max_output_chars");
        assert("compaction_prune_max_output_chars"@.len() != "script.max_concurrent_scripts"@.len());
        reveal_strlit("compaction_preserve_recent_tokens");
        assert("compaction_preserve_recent_tokens"@.len() != "script.max_concurrent_scripts"@.len());
        reveal_strlit("compaction_preserve_recent_messages_floor");
        assert("compaction_preserve_recent_messages_floor"@.len() != "script.max_concurrent_scripts"@.len());
        reveal_strlit("compaction_max_summary_chars");
        assert("compaction_max_summary_chars"@.len() != "script.max_concurrent_scripts"@.len());
        reveal_strlit("compaction_llm_summarization");
        assert("compaction_llm_summarization"@.len() != "script.max_concurrent_scripts"@.len());
        reveal_strlit("optimization.html_diff_mode");
        assert("optimization.html_diff_mode"@.len() != "script.max_concurrent_scripts"@.len());
        reveal_strlit("optimization.loop_detection");
        assert("optimization.loop_detection"@.len() != "script.max_concurrent_scripts"@.len());
        reveal_strlit("optimization.loop_detection_window");
        assert("optimization.loop_detection_window"@.len() != "script.max_concurrent_scripts"@.len());
        reveal_strlit("optimization.loop_nudge_threshold");
        assert("optimization.loop_nudge_threshold"@.len() != "script.max_concurrent_scripts"@.len());
        reveal_strlit("optimization.page_fingerprinting");
        assert("optimization.page_fingerprinting"@.len() != "script.max_concurrent_scripts"@.len());
        reveal_strlit("optimization.planning_interval");
        assert("optimization.planning_interval"@.len() != "script.max_concurrent_scripts"@.len());
        reveal_strlit("optimization.failure_classification");
        assert("optimization.failure_classification"@.len() != "script.max_concurrent_scripts"@.len());
        reveal_strlit("optimization.self_healing");
        assert("optimization.self_healing"@.len() != "script.max_concurrent_scripts"@.len());
        reveal_strlit("optimization.self_healing_max_retries");
        assert("optimization.self_healing_max_retries"@.len() != "script.max_concurrent_scripts"@.len());
        reveal_strlit("optimization.action_caching");
        assert("optimization.action_caching"@.len() != "script.max_concurrent_scripts"@.len());
        reveal_strlit("optimization.action_cache_ttl_secs");
        assert("optimization.action_cache_ttl_secs"@.len() != "script.max_concurrent_scripts"@.len());
        reveal_strlit("optimization.confidence_tracking");
        assert("optimization.confidence_tracking"@.len() != "script.max_concurrent_scripts"@.len());
        reveal_strlit("optimization.compound_enrichment");
        assert("optimization.compound_enrichment"@.len() != "script.max_concurrent_scripts"@.len());
        reveal_strlit("optimization.budget_max_session_cost_usd");
        assert("optimization.budget_max_session_cost_usd"@.len() != "script.max_concurrent_scripts"@.len());
        reveal_strlit("optimization.budget_enforcement");
        assert("optimization.budget_enforcement"@.len() != "script.max_concurrent_scripts"@.len());
        reveal_strlit("optimization.budget_warn_threshold_pct");
        assert("optimization.budget_warn_threshold_pct"@.len() != "script.max_concurrent_scripts"@.len());
        reveal_strlit("optimization.per_agent_cost_tracking");
        assert("optimization.per_agent_cost_tracking"@.len() != "script.max_concurrent_scripts"@.len());
        reveal_strlit("optimization.content_aware_profiles");
        assert("optimization.content_aware_profiles"@.len() != "script.max_concurrent_scripts"@.len());
        reveal_strlit("script.max_steps");
        assert("script.max_steps"@.len() != "script.max_concurrent_scripts"@.len());
        reveal_strlit("script.max_timeout_secs");
        assert("script.max_timeout_secs"@.len() != "script.max_concurrent_scripts"@.len());
        reveal_strlit("script.max_output_bytes");
        assert("script.max_output_bytes"@.len() != "script.max_concurrent_scripts"@.len());
        reveal_strlit("script.max_parallel_branches");
        assert("script.max_parallel_branches"@.len() != "script.max_concurrent_scripts"@.len());
    }
    assert(key_kind("script.per_step_timeout_secs"@) == Some(ValueKind::U64)) by {
        reveal_strlit("script.per_step_timeout_secs");
        reveal_strlit("headless");
        assert("headless"@.len() != "script.per_step_timeout_secs"@.len());
        reveal_strlit("max_steps");
        assert("max_steps"@.len() != "script.per_step_timeout_secs"@.len());
        reveal_strlit("model");
        assert("model"@.len() != "script.per_step_timeout_secs"@.len());
        reveal_strlit("reasoning_effort");
        assert("reasoning_effort"@.len() != "script.per_step_timeout_secs"@.len());
        reveal_strlit("output_dir");
        assert("output_dir"@.len() != "script.per_step_timeout_secs"@.len());
        reveal_strlit("auto_compact_input_tokens");
        assert("auto_compact_input_tokens"@.len() != "script.per_step_timeout_secs"@.len());
        reveal_strlit("max_concurrent_per_parent");
        assert("max_concurrent_per_parent"@.len() != "script.per_step_timeout_secs"@.len());
        reveal_strlit("max_fork_depth");
        assert("max_fork_depth"@.len() != "script.per_step_timeout_secs"@.len());
        reveal_strlit("max_total_agents");
        assert("max_total_agents"@.len() != "script.per_step_timeout_secs"@.len());
        reveal_strlit("fork_child_max_steps");
        assert("fork_child_max_steps"@.len() != "script.per_step_timeout_secs"@.len());
        reveal_strlit("fork_wait_timeout_secs");
        assert("fork_wait_timeout_secs"@.len() != "script.per_step_timeout_secs"@.len());
        reveal_strlit("extension_bridge_token");
        assert("extension_bridge_token"@.len() != "script.per_step_timeout_secs"@.len());
        reveal_strlit("extension_bridge_port");
        assert("extension_bridge_port"@.len() != "script.per_step_timeout_secs"@.len());
        reveal_strlit("browser_backend");
        assert("browser_backend"@.len() != "script.per_step_timeout_secs"@.len());
        reveal_strlit("compaction_prune_protect_tokens");
        assert("compaction_prune_protect_tokens"@.len() != "script.per_step_timeout_secs"@.len());
        reveal_strlit("compaction_prune_max_output_chars");
        assert("compaction_prune_max_output_chars"@.len() != "script.per_step_timeout_secs"@.len());
        reveal_strlit("compaction_preserve_recent_tokens");
        assert("compaction_preserve_recent_tokens"@.len() != "script.per_step_timeout_secs"@.len());
        reveal_strlit("compaction_preserve_recent_messages_floor");
        assert("compaction_preserve_recent_messages_floor"@.len() != "script.per_step_timeout_secs"@.len());
        reveal_strlit("compaction_max_summary_chars");
        assert("compaction_max_summary_chars"@[0] != "script.per_step_timeout_secs"@[0]);
        reveal_strlit("compaction_llm_summarization");
        assert("compaction_llm_summarization"@[0] != "script.per_step_timeout_secs"@[0]);
        reveal_strlit("optimization.html_diff_mode");
        assert("optimization.html_diff_mode"@.len() != "script.per_step_timeout_secs"@.len());
        reveal_strlit("optimization.loop_detection");
        assert("optimization.loop_detection"@.len() != "script.per_step_timeout_secs"@.len());
        reveal_strlit("optimization.loop_detection_window");
        assert("optimization.loop_detection_window"@.len() != "script.per_step_timeout_secs"@.len());
        reveal_strlit("optimization.loop_nudge_threshold");
        assert("optimization.loop_nudge_threshold"@.len() != "script.per_step_timeout_secs"@.len());
        reveal_strlit("optimization.page_fingerprinting");
        assert("optimization.page_fingerprinting"@.len() != "script.per_step_timeout_secs"@.len());
        reveal_strlit("optimization.planning_interval");
        assert("optimization.planning_interval"@.len() != "script.per_step_timeout_secs"@.len());
        reveal_strlit("optimization.failure_classification");
        assert("optimization.failure_classification"@.len() != "script.per_step_timeout_secs"@.len());
        reveal_strlit("optimization.self_healing");
        assert("optimization.self_healing"@.len() != "script.per_step_timeout_secs"@.len());
        reveal_strlit("optimization.self_healing_max_retries");
        assert("optimization.self_healing_max_retries"@.len() != "script.per_step_timeout_secs"@.len());
        reveal_strlit("optimization.action_caching");
        assert("optimization.action_caching"@.len() != "script.per_step_timeout_secs"@.len());
        reveal_strlit("optimization.action_cache_ttl_secs");
        assert("optimization.action_cache_ttl_secs"@.len() != "script.per_step_timeout_secs"@.len());
        reveal_strlit("optimization.confidence_tracking");
        assert("optimization.confidence_tracking"@.len() != "script.per_step_timeout_secs"@.len());
        reveal_strlit("optimization.compound_enrichment");
        assert("optimization.compound_enrichment"@.len() != "script.per_step_timeout_secs"@.len());
        reveal_strlit("optimization.budget_max_session_cost_usd");
        assert("optimization.budget_max_session_cost_usd"@.len() != "script.per_step_timeout_secs"@.len());
        reveal_strlit("optimization.budget_enforcement");
        assert("optimization.budget_enforcement"@.len() != "script.per_step_timeout_secs"@.len());
        reveal_strlit("optimization.budget_warn_threshold_pct");
        assert("optimization.budget_warn_threshold_pct"@.len() != "script.per_step_timeout_secs"@.len());
        reveal_strlit("optimization.per_agent_cost_tracking");
        assert("optimization.per_agent_cost_tracking"@.len() != "script.per_step_timeout_secs"@.len());
        reveal_strlit("optimization.content_aware_profiles");
        assert("optimization.content_aware_profiles"@.len() != "script.per_step_timeout_secs"@.len());
        reveal_strlit("script.max_steps");
        assert("script.max_steps"@.len() != "script.per_step_timeout_secs"@.len());
        reveal_strlit("script.max_timeout_secs");
        assert("script.max_timeout_secs"@.len() != "script.per_step_timeout_secs"@.len());
        reveal_strlit("script.max_output_bytes");
        assert("script.max_output_bytes"@.len() != "script.per_step_timeout_secs"@.len());
        reveal_strlit("script.max_parallel_branches");
        assert("script.max_parallel_branches"@[7] != "script.per_step_timeout_secs"@[7]);
        reveal_strlit("script.max_concurrent_scripts");
        assert("script.max_concurrent_scripts"@.len() != "script.per_step_timeout_secs"@.len());
    }
    assert(key_kind("script.max_script_size_bytes"@) == Some(ValueKind::Usize)) by {
        reveal_strlit("script.max_script_size_bytes");
        reveal_strlit("headless");
        assert("headless"@.len() != "script.max_script_size_bytes"@.len());
        reveal_strlit("max_steps");
        assert("max_steps"@.len() != "script.max_script_size_bytes"@.len());
        reveal_strlit("model");
        assert("model"@.len() != "script.max_script_size_bytes"@.len());
        reveal_strlit("reasoning_effort");
        assert("reasoning_effort"@.len() != "script.max_script_size_bytes"@.len());
        reveal_strlit("output_dir");
        assert("output_dir"@.len() != "script.max_script_size_bytes"@.len());
        reveal_strlit("auto_compact_input_tokens");
        assert("auto_compact_input_tokens"@.len() != "script.max_script_size_bytes"@.len());
        reveal_strlit("max_concurrent_per_parent");
        assert("max_concurrent_per_parent"@.len() != "script.max_script_size_bytes"@.len());
        reveal_strlit("max_fork_depth");
        assert("max_fork_depth"@.len() != "script.max_script_size_bytes"@.len());
        reveal_strlit("max_total_agents");
        assert("max_total_agents"@.len() != "script.max_script_size_bytes"@.len());
        reveal_strlit("fork_child_max_steps");
        assert("fork_child_max_steps"@.len() != "script.max_script_size_bytes"@.len());
        reveal_strlit("fork_wait_timeout_secs");
        assert("fork_wait_timeout_secs"@.len() != "script.max_script_size_bytes"@.len());
        reveal_strlit("extension_bridge_token");
        assert("extension_bridge_token"@.len() != "script.max_script_size_bytes"@.len());
        reveal_strlit("extension_bridge_port");
        assert("extension_bridge_port"@.len() != "script.max_script_size_bytes"@.len());
        reveal_strlit("browser_backend");
        assert("browser_backend"@.len() != "script.max_script_size_bytes"@.len());
        reveal_strlit("compaction_prune_protect_tokens");
        assert("compaction_prune_protect_tokens"@.len() != "script.max_script_size_bytes"@.len());
        reveal_strlit("compaction_prune_max_output_chars");
        assert("compaction_prune_max_output_chars"@.len() != "script.max_script_size_bytes"@.len());
        reveal_strlit("compaction_preserve_recent_tokens");
        assert("compaction_preserve_recent_tokens"@.len() != "script.max_script_size_bytes"@.len());
        reveal_strlit("compaction_preserve_recent_messages_floor");
        assert("compaction_preserve_recent_messages_floor"@.len() != "script.max_script_size_bytes"@.len());
        reveal_strlit("compaction_max_summary_chars");
        assert("compaction_max_summary_chars"@[0] != "script.max_script_size_bytes"@[0]);
        reveal_strlit("compaction_llm_summarization");
        assert("compaction_llm_summarization"@[0] != "script.max_script_size_bytes"@[0]);
        reveal_strlit("optimization.html_diff_mode");
        assert("optimization.html_diff_mode"@.len() != "script.max_script_size_bytes"@.len());
        reveal_strlit("optimization.loop_detection");
        assert("optimization.loop_detection"@.len() != "script.max_script_size_bytes"@.len());
        reveal_strlit("optimization.loop_detection_window");
        assert("optimization.loop_detection_window"@.len() != "script.max_script_size_bytes"@.len());
        reveal_strlit("optimization.loop_nudge_threshold");
        assert("optimization.loop_nudge_threshold"@.len() != "script.max_script_size_bytes"@.len());
        reveal_strlit("optimization.page_fingerprinting");
        assert("optimization.page_fingerprinting"@.len() != "script.max_script_size_bytes"@.len());
        reveal_strlit("optimization.planning_interval");
        assert("optimization.planning_interval"@.len() != "script.max_script_size_bytes"@.len());
        reveal_strlit("optimization.failure_classification");
        assert("optimization.failure_classification"@.len() != "script.max_script_size_bytes"@.len());
        reveal_strlit("optimization.self_healing");
        assert("optimization.self_healing"@.len() != "script.max_script_size_bytes"@.len());
        reveal_strlit("optimization.self_healing_max_retries");
        assert("optimization.self_healing_max_retries"@.len() != "script.max_script_size_bytes"@.len());
        reveal_strlit("optimization.action_caching");
        assert("optimization.action_caching"@.len() != "script.max_script_size_bytes"@.len());
        reveal_strlit("optimization.action_cache_ttl_secs");
        assert("optimization.action_cache_ttl_secs"@.len() != "script.max_script_size_bytes"@.len());
        reveal_strlit("optimization.confidence_tracking");
        assert("optimization.confidence_tracking"@.len() != "script.max_script_size_bytes"@.len());
        reveal_strlit("optimization.compound_enrichment");
        assert("optimization.compound_enrichment"@.len() != "script.max_script_size_bytes"@.len());
        reveal_strlit("optimization.budget_max_session_cost_usd");
        assert("optimization.budget_max_session_cost_usd"@.len() != "script.max_script_size_bytes"@.len());
        reveal_strlit("optimization.budget_enforcement");
        assert("optimization.budget_enforcement"@.len() != "script.max_script_size_bytes"@.len());
        reveal_strlit("optimization.budget_warn_threshold_pct");
        assert("optimization.budget_warn_threshold_pct"@.len() != "script.max_script_size_bytes"@.len());
        reveal_strlit("optimization.per_agent_cost_tracking");
        assert("optimization.per_agent_cost_tracking"@.len() != "script.max_script_size_bytes"@.len());
        reveal_strlit("optimization.content_aware_profiles");
        assert("optimization.content_aware_profiles"@.len() != "script.max_script_size_bytes"@.len());
        reveal_strlit("script.max_steps");
        assert("script.max_steps"@.len() != "script.max_script_size_bytes"@.len());
        reveal_strlit("script.max_timeout_secs");
        assert("script.max_timeout_secs"@.len() != "script.max_script_size_bytes"@.len());
        reveal_strlit("script.max_output_bytes");
        assert("script.max_output_bytes"@.len() != "script.max_script_size_bytes"@.len());
        reveal_strlit("script.max_parallel_branches");
        assert("script.max_parallel_branches"@[11] != "script.max_script_size_bytes"@[11]);
        reveal_strlit("script.max_concurrent_scripts");
        assert("script.max_concurrent_scripts"@.len() != "script.max_script_size_bytes"@.len());
        reveal_strlit("script.per_step_timeout_secs");
        assert("script.per_step_timeout_secs"@[7] != "script.max_script_size_bytes"@[7]);
    }
    assert(key_kind("script.max_nesting_depth"@) == Some(ValueKind::Usize)) by {
        reveal_strlit("script.max_nesting_depth");
        reveal_strlit("headless");
        assert("headless"@.len() != "script.max_nesting_depth"@.len());
        reveal_strlit("max_steps");
        assert("max_steps"@.len() != "script.max_nesting_depth"@.len());
        reveal_strlit("model");
        assert("model"@.len() != "script.max_nesting_depth"@.len());
        reveal_strlit("reasoning_effort");
        assert("reasoning_effort"@.len() != "script.max_nesting_depth"@.len());
        reveal_strlit("output_dir");
        assert("output_dir"@.len() != "script.max_nesting_depth"@.len());
        reveal_strlit("auto_compact_input_tokens");
        assert("auto_compact_input_tokens"@.len() != "script.max_nesting_depth"@.len());
        reveal_strlit("max_concurrent_per_parent");
        assert("max_concurrent_per_parent"@.len() != "script.max_nesting_depth"@.len());
        reveal_strlit("max_fork_depth");
        assert("max_fork_depth"@.len() != "script.max_nesting_depth"@.len());
        reveal_strlit("max_total_agents");
        assert("max_total_agents"@.len() != "script.max_nesting_depth"@.len());
        reveal_strlit("fork_child_max_steps");
        assert("fork_child_max_steps"@.len() != "script.max_nesting_depth"@.len());
        reveal_strlit("fork_wait_timeout_secs");
        assert("fork_wait_timeout_secs"@.len() != "script.max_nesting_depth"@.len());
        reveal_strlit("extension_bridge_token");
        assert("extension_bridge_token"@.len() != "script.max_nesting_depth"@.len());
        reveal_strlit("extension_bridge_port");
        assert("extension_bridge_port"@.len() != "script.max_nesting_depth"@.len());
        reveal_strlit("browser_backend");
        assert("browser_backend"@.len() != "script.max_nesting_depth"@.len());
        reveal_strlit("compaction_prune_protect_tokens");
        assert("compaction_prune_protect_tokens"@.len() != "script.max_nesting_depth"@.len());
        reveal_strlit("compaction_prune_max_output_chars");
        assert("compaction_prune_max_output_chars"@.len() != "script.max_nesting_depth"@.len());
        reveal_strlit("compaction_preserve_recent_tokens");
        assert("compaction_preserve_recent_tokens"@.len() != "script.max_nesting_depth"@.len());
        reveal_strlit("compaction_preserve_recent_messages_floor");
        assert("compaction_preserve_recent_messages_floor"@.len() != "script.max_nesting_depth"@.len());
        reveal_strlit("compaction_max_summary_chars");
        assert("compaction_max_summary_chars"@.len() != "script.max_nesting_depth"@.len());
        reveal_strlit("compaction_llm_summarization");
        assert("compaction_llm_summarization"@.len() != "script.max_nesting_depth"@.len());
        reveal_strlit("optimization.html_diff_mode");
        assert("optimization.html_diff_mode"@.len() != "script.max_nesting_depth"@.len());
        reveal_strlit("optimization.loop_detection");
        assert("optimization.loop_detection"@.len() != "script.max_nesting_depth"@.len());
        reveal_strlit("optimization.loop_detection_window");
        assert("optimization.loop_detection_window"@.len() != "script.max_nesting_depth"@.len());
        reveal_strlit("optimization.loop_nudge_threshold");
        assert("optimization.loop_nudge_threshold"@.len() != "script.max_nesting_depth"@.len());
        reveal_strlit("optimization.page_fingerprinting");
        assert("optimization.page_fingerprinting"@.len() != "script.max_nesting_depth"@.len());
        reveal_strlit("optimization.planning_interval");
        assert("optimization.planning_interval"@.len() != "script.max_nesting_depth"@.len());
        reveal_strlit("optimization.failure_classification");
        assert("optimization.failure_classification"@.len() != "script.max_nesting_depth"@.len());
        reveal_strlit("optimization.self_healing");
        assert("optimization.self_healing"@.len() != "script.max_nesting_depth"@.len());
        reveal_strlit("optimization.self_healing_max_retries");
        assert("optimization.self_healing_max_retries"@.len() != "script.max_nesting_depth"@.len());
        reveal_strlit("optimization.action_caching");
        assert("optimization.action_caching"@.len() != "script.max_nesting_depth"@.len());
        reveal_strlit("optimization.action_cache_ttl_secs");
        assert("optimization.action_cache_ttl_secs"@.len() != "script.max_nesting_depth"@.len());
        reveal_strlit("optimization.confidence_tracking");
        assert("optimization.confidence_tracking"@.len() != "script.max_nesting_depth"@.len());
        reveal_strlit("optimization.compound_enrichment");
        assert("optimization.compound_enrichment"@.len() != "script.max_nesting_depth"@.len());
        reveal_strlit("optimization.budget_max_session_cost_usd");
        assert("optimization.budget_max_session_cost_usd"@.len() != "script.max_nesting_depth"@.len());
        reveal_strlit("optimization.budget_enforcement");
        assert("optimization.budget_enforcement"@.len() != "script.max_nesting_depth"@.len());
        reveal_strlit("optimization.budget_warn_threshold_pct");
        assert("optimization.budget_warn_threshold_pct"@.len() != "script.max_nesting_depth"@.len());
        reveal_strlit("optimization.per_agent_cost_tracking");
        assert("optimization.per_agent_cost_tracking"@.len() != "script.max_nesting_depth"@.len());
        reveal_strlit("optimization.content_aware_profiles");
        assert("optimization.content_aware_profiles"@.len() != "script.max_nesting_depth"@.len());
        reveal_strlit("script.max_steps");
        assert("script.max_steps"@.len() != "script.max_nesting_depth"@.len());
        reveal_strlit("script.max_timeout_secs");
        assert("script.max_timeout_secs"@.len() != "script.max_nesting_depth"@.len());
        reveal_strlit("script.max_output_bytes");
        assert("script.max_output_bytes"@.len() != "script.max_nesting_depth"@.len());
        reveal_strlit("script.max_parallel_branches");
        assert("script.max_parallel_branches"@.len() != "script.max_nesting_depth"@.len());
        reveal_strlit("script.max_concurrent_scripts");
        assert("script.max_concurrent_scripts"@.len() != "script.max_nesting_depth"@.len());
        reveal_strlit("script.per_step_timeout_secs");
        assert("script.per_step_timeout_secs"@.len() != "script.max_nesting_depth"@.len());
        reveal_strlit("script.max_script_size_bytes");
        assert("script.max_script_size_bytes"@.len() != "script.max_nesting_depth"@.len());
    }
    assert(key_kind("script.scripts_dir"@) == Some(ValueKind::Path)) by {
        reveal_strlit("script.scripts_dir");
        reveal_strlit("headless");
        assert("headless"@.len() != "script.scripts_dir"@.len());
        reveal_strlit("max_steps");
        assert("max_steps"@.len() != "script.scripts_dir"@.len());
        reveal_strlit("model");
        assert("model"@.len() != "script.scripts_dir"@.len());
        reveal_strlit("reasoning_effort");
        assert("reasoning_effort"@.len() != "script.scripts_dir"@.len());
        reveal_strlit("output_dir");
        assert("output_dir"@.len() != "script.scripts_dir"@.len());
        reveal_strlit("auto_compact_input_tokens");
        assert("auto_compact_input_tokens"@.len() != "script.scripts_dir"@.len());
        reveal_strlit("max_concurrent_per_parent");
        assert("max_concurrent_per_parent"@.len() != "script.scripts_dir"@.len());
        reveal_strlit("max_fork_depth");
        assert("max_fork_depth"@.len() != "script.scripts_dir"@.len());
        reveal_strlit("max_total_agents");
        assert("max_total_agents"@.len() != "script.scripts_dir"@.len());
        reveal_strlit("fork_child_max_steps");
        assert("fork_child_max_steps"@.len() != "script.scripts_dir"@.len());
        reveal_strlit("fork_wait_timeout_secs");
        assert("fork_wait_timeout_secs"@.len() != "script.scripts_dir"@.len());
        reveal_strlit("extension_bridge_token");
        assert("extension_bridge_token"@.len() != "script.scripts_dir"@.len());
        reveal_strlit("extension_bridge_port");
        assert("extension_bridge_port"@.len() != "script.scripts_dir"@.len());
        reveal_strlit("browser_backend");
        assert("browser_backend"@.len() != "script.scripts_dir"@.len());
        reveal_strlit("compaction_prune_protect_tokens");
        assert("compaction_prune_protect_tokens"@.len() != "script.scripts_dir"@.len());
        reveal_strlit("compaction_prune_max_output_chars");
        assert("compaction_prune_max_output_chars"@.len() != "script.scripts_dir"@.len());
        reveal_strlit("compaction_preserve_recent_tokens");
        assert("compaction_preserve_recent_tokens"@.len() != "script.scripts_dir"@.len());
        reveal_strlit("compaction_preserve_recent_messages_floor");
        assert("compaction_preserve_recent_messages_floor"@.len() != "script.scripts_dir"@.len());
        reveal_strlit("compaction_max_summary_chars");
        assert("compaction_max_summary_chars"@.len() != "script.scripts_dir"@.len());
        reveal_strlit("compaction_llm_summarization");
        assert("compaction_llm_summarization"@.len() != "script.scripts_dir"@.len());
        reveal_strlit("optimization.html_diff_mode");
        assert("optimization.html_diff_mode"@.len() != "script.scripts_dir"@.len());
        reveal_strlit("optimization.loop_detection");
        assert("optimization.loop_detection"@.len() != "script.scripts_dir"@.len());
        reveal_strlit("optimization.loop_detection_window");
        assert("optimization.loop_detection_window"@.len() != "script.scripts_dir"@.len());
        reveal_strlit("optimization.loop_nudge_threshold");
        assert("optimization.loop_nudge_threshold"@.len() != "script.scripts_dir"@.len());
        reveal_strlit("optimization.page_fingerprinting");
        assert("optimization.page_fingerprinting"@.len() != "script.scripts_dir"@.len());
        reveal_strlit("optimization.planning_interval");
        assert("optimization.planning_interval"@.len() != "script.scripts_dir"@.len());
        reveal_strlit("optimization.failure_classification");
        assert("optimization.failure_classification"@.len() != "script.scripts_dir"@.len());
        reveal_strlit("optimization.self_healing");
        assert("optimization.self_healing"@.len() != "script.scripts_dir"@.len());
        reveal_strlit("optimization.self_healing_max_retries");
        assert("optimization.self_healing_max_retries"@.len() != "script.scripts_dir"@.len());
        reveal_strlit("optimization.action_caching");
        assert("optimization.action_caching"@.len() != "script.scripts_dir"@.len());
        reveal_strlit("optimization.action_cache_ttl_secs");
        assert("optimization.action_cache_ttl_secs"@.len() != "script.scripts_dir"@.len());
        reveal_strlit("optimization.confidence_tracking");
        assert("optimization.confidence_tracking"@.len() != "script.scripts_dir"@.len());
        reveal_strlit("optimization.compound_enrichment");
        assert("optimization.compound_enrichment"@.len() != "script.scripts_dir"@.len());
        reveal_strlit("optimization.budget_max_session_cost_usd");
        assert("optimization.budget_max_session_cost_usd"@.len() != "script.scripts_dir"@.len());
        reveal_strlit("optimization.budget_enforcement");
        assert("optimization.budget_enforcement"@.len() != "script.scripts_dir"@.len());
        reveal_strlit("optimization.budget_warn_threshold_pct");
        assert("optimization.budget_warn_threshold_pct"@.len() != "script.scripts_dir"@.len());
        reveal_strlit("optimization.per_agent_cost_tracking");
        assert("optimization.per_agent_cost_tracking"@.len() != "script.scripts_dir"@.len());
        reveal_strlit("optimization.content_aware_profiles");
        assert("optimization.content_aware_profiles"@.len() != "script.scripts_dir"@.len());
        reveal_strlit("script.max_steps");
        assert("script.max_steps"@.len() != "script.scripts_dir"@.len());
        reveal_strlit("script.max_timeout_secs");
        assert("script.max_timeout_secs"@.len() != "script.scripts_dir"@.len());
        reveal_strlit("script.max_output_bytes");
        assert("script.max_output_bytes"@.len() != "script.scripts_dir"@.len());
        reveal_strlit("script.max_parallel_branches");
        assert("script.max_parallel_branches"@.len() != "script.scripts_dir"@.len());
        reveal_strlit("script.max_concurrent_scripts");
        assert("script.max_concurrent_scripts"@.len() != "script.scripts_dir"@.len());
        reveal_strlit("script.per_step_timeout_secs");
        assert("script.per_step_timeout_secs"@.len() != "script.scripts_dir"@.len());
        reveal_strlit("script.max_script_size_bytes");
        assert("script.max_script_size_bytes"@.len() != "script.scripts_dir"@.len());
        reveal_strlit("script.max_nesting_depth");
        assert("script.max_nesting_depth"@.len() != "script.scripts_dir"@.len());
    }
    assert forall|i: int| 0 <= i < key_table().len() implies key_kind(#[trigger] key_table()[i].0) == Some(key_table()[i].1) by {
    }
    if forall|i: int| 0 <= i < key_table().len() ==> #[trigger] key_table()[i].0 != key {
        assert(key_table()[0].0 != key);
        assert(key_table()[1].0 != key);
        assert(key_table()[2].0 != key);
        assert(key_table()[3].0 != key);
        assert(key_table()[4].0 != key);
        assert(key_table()[5].0 != key);
        assert(key_table()[6].0 != key);
        assert(key_table()[7].0 != key);
        assert(key_table()[8].0 != key);
        assert(key_table()[9].0 != key);
        assert(key_table()[10].0 != key);
        assert(key_table()[11].0 != key);
        assert(key_table()[12].0 != key);
        assert(key_table()[13].0 != key);
        assert(key_table()[14].0 != key);
        assert(key_table()[15].0 != key);
        assert(key_table()[16].0 != key);
        assert(key_table()[17].0 != key);
        assert(key_table()[18].0 != key);
        assert(key_table()[19].0 != key);
        assert(key_table()[20].0 != key);
        assert(key_table()[21].0 != key);
        assert(key_table()[22].0 != key);
        assert(key_table()[23].0 != key);
        assert(key_table()[24].0 != key);
        assert(key_table()[25].0 != key);
        assert(key_table()[26].0 != key);
        assert(key_table()[27].0 != key);
        assert(key_table()[28].0 != key);
        assert(key_table()[29].0 != key);
        assert(key_table()[30].0 != key);
        assert(key_table()[31].0 != key);
        assert(key_table()[32].0 != key);
        assert(key_table()[33].0 != key);
        assert(key_table()[34].0 != key);
        assert(key_table()[35].0 != key);
        assert(key_table()[36].0 != key);
        assert(key_table()[37].0 != key);
        assert(key_table()[38].0 != key);
        assert(key_table()[39].0 != key);
        assert(key_table()[40].0 != key);
        assert(key_table()[41].0 != key);
        assert(key_table()[42].0 != key);
        assert(key_table()[43].0 != key);
        assert(key_table()[44].0 != key);
        assert(key_table()[45].0 != key);
        assert(key_table()[46].0 != key);
    }
}


/// Setting a key of the table parses the value as the kind the table gives
/// that key.
pub proof fn lemma_set_follows_table(i: int, value: Seq<char>, r: Result<ConfigValue, ConfigError>)
    requires
        0 <= i < key_table().len(),
        set_outcome(key_table()[i].0, value, r),
    ensures
        parse_outcome(key_table()[i].1, key_table()[i].0, value, r),
{
    lemma_key_kinds_follow_table(key_table()[i].0);
}

/// A key that takes a bool accepts exactly `true` and `false`, as those
/// values, and refuses anything else as not a bool.
pub proof fn lemma_bool_keys_take_bools(i: int, value: Seq<char>, r: Result<ConfigValue, ConfigError>)
    requires
        0 <= i < key_table().len(),
        key_table()[i].1 == ValueKind::Bool,
        set_outcome(key_table()[i].0, value, r),
    ensures
        value == "true"@ ==> r == Ok::<ConfigValue, ConfigError>(ConfigValue::Bool(true)),
        value == "false"@ ==> r == Ok::<ConfigValue, ConfigError>(ConfigValue::Bool(false)),
        value != "true"@ && value != "false"@ ==> is_bad_value(
            r,
            key_table()[i].0,
            value,
            "expected bool (true or false)"@,
        ),
{
    lemma_set_follows_table(i, value, r);
    reveal_strlit("true");
    reveal_strlit("false");
    assert("true"@.len() != "false"@.len());
}

/// An unknown key is refused by name, whatever the value.
pub proof fn lemma_unknown_keys_refused(key: Seq<char>, value: Seq<char>, r: Result<ConfigValue, ConfigError>)
    requires
        forall|i: int| 0 <= i < key_table().len() ==> #[trigger] key_table()[i].0 != key,
        set_outcome(key, value, r),
    ensures
        r matches Err(ConfigError::UnknownKey(k)) && k@ == key,
{
    lemma_key_kinds_follow_table(key);
}

} // verus!
