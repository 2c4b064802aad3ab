//! Crawl scripts: their syntax tree, the rules a valid script follows, and
//! the names they are stored under.
use vstd::prelude::*;

pub mod error;
pub mod grammar;
pub mod parser;
pub mod persistence;

pub use error::{ScriptParseError, ValidationError};
pub use grammar::{Expression, ScriptDefinition, ScriptLimits, ScriptNode, SCHEMA_VERSION};
pub use parser::{check_parsed_script, script_json_text, validate_script};
pub use persistence::{validate_script_name, PersistenceError, ScriptMetadata};

verus! {
}
