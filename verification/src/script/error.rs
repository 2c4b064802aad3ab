//! Why a crawl script is rejected.
use vstd::prelude::*;

verus! {

/// Why a script's JSON does not make a script.
#[derive(Debug)]
pub enum ScriptParseError {
    /// The JSON does not have the shape of a script.
    Json(serde_json::Error),
    /// The script declares another format version.
    WrongSchemaVersion { found: u32, expected: u32 },
    /// The script is not laid out as required.
    Structure(String),
}

/// A rule of the script format that a script breaks.
#[derive(Debug, Clone, PartialEq, Eq)]
pub enum ValidationError {
    WrongSchemaVersion { found: u32, expected: u32 },
    UnknownTool { tool: String },
    ExcessiveNesting { depth: usize, max: usize },
    ScriptTooLarge { size_bytes: usize, max_bytes: usize },
    TooManyParallelBranches { branch_count: usize, max: usize },
    EmptySteps { context: String },
    UndefinedVariable { name: String, context: String },
}

/// A validation error as values.
pub enum ValidationErrorView {
    WrongSchemaVersion { found: u32, expected: u32 },
    UnknownTool { tool: Seq<char> },
    ExcessiveNesting { depth: nat, max: nat },
    ScriptTooLarge { size_bytes: nat, max_bytes: nat },
    TooManyParallelBranches { branch_count: nat, max: nat },
    EmptySteps { context: Seq<char> },
    UndefinedVariable { name: Seq<char>, context: Seq<char> },
}

impl View for ValidationError {
    type V = ValidationErrorView;

    open spec fn view(&self) -> ValidationErrorView {
        match self {
            ValidationError::WrongSchemaVersion { found, expected } =>
                ValidationErrorView::WrongSchemaVersion { found: *found, expected: *expected },
            ValidationError::UnknownTool { tool } => ValidationErrorView::UnknownTool {
                tool: tool@,
            },
            ValidationError::ExcessiveNesting { depth, max } =>
                ValidationErrorView::ExcessiveNesting { depth: *depth as nat, max: *max as nat },
            ValidationError::ScriptTooLarge { size_bytes, max_bytes } =>
                ValidationErrorView::ScriptTooLarge {
                size_bytes: *size_bytes as nat,
                max_bytes: *max_bytes as nat,
            },
            ValidationError::TooManyParallelBranches { branch_count, max } =>
                ValidationErrorView::TooManyParallelBranches {
                branch_count: *branch_count as nat,
                max: *max as nat,
            },
            ValidationError::EmptySteps { context } => ValidationErrorView::EmptySteps {
                context: context@,
            },
            ValidationError::UndefinedVariable { name, context } =>
                ValidationErrorView::UndefinedVariable { name: name@, context: context@ },
        }
    }
}

/// Views of a sequence of validation errors.
pub open spec fn error_views(s: Seq<ValidationError>) -> Seq<ValidationErrorView> {
    s.map_values(|e: ValidationError| e@)
}

} // verus!
