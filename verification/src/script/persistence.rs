//! Names under which crawl scripts are stored.
use vstd::prelude::*;

use crate::text::{chars_of, string_of};

verus! {

/// `std::time::SystemTime`, the modification time of a stored script.
#[verifier::external_type_specification]
#[verifier::external_body]
pub struct ExSystemTime(std::time::SystemTime);

/// A stored script, as listed.
#[derive(Debug)]
pub struct ScriptMetadata {
    /// Script name, without the `.json` extension.
    pub name: String,
    /// File size in bytes.
    pub size_bytes: u64,
    /// Last modification time.
    pub modified_at: std::time::SystemTime,
}

/// Why a script could not be stored or read.
#[derive(Debug)]
pub enum PersistenceError {
    /// The file system refused.
    Io(std::io::Error),
    /// The script's JSON did not parse or serialise.
    Parse(String),
    /// The script name is not acceptable.
    InvalidName(String),
}

/// What `char::is_alphanumeric` returns for `c` (Unicode `Alphabetic` or
/// `Numeric`).
pub uninterp spec fn unicode_alphanumeric(c: char) -> bool;

/// `char::is_alphanumeric`: `c` is alphabetic or numeric in Unicode. Its
/// result is named, not restated: Unicode's property tables are not written
/// out here.
#[verifier::external_body]
fn is_alphanumeric(c: char) -> (r: bool)
    ensures
        r == unicode_alphanumeric(c),
{
    c.is_alphanumeric()
}

/// A character allowed in a script name.
pub open spec fn name_char_ok(c: char) -> bool {
    unicode_alphanumeric(c) || c == '_' || c == '-'
}

/// Why `name` is refused, or `None` when it is acceptable: it must be
/// non-empty, without NUL or path separators, and made of alphanumerics,
/// underscores and hyphens.
pub open spec fn script_name_problem(name: Seq<char>) -> Option<Seq<char>> {
    if name.len() == 0 {
        Some("script name cannot be empty"@)
    } else if name.contains('\0') {
        Some("script name cannot contain null bytes"@)
    } else if name.contains('/') || name.contains('\\') {
        Some("script name cannot contain path separators"@)
    } else if !(forall|i: int| 0 <= i < name.len() ==> name_char_ok(#[trigger] name[i])) {
        Some(
            "script name must contain only alphanumeric characters, underscores, and hyphens"@,
        )
    } else {
        None
    }
}

/// Whether `s` holds `c`.
fn has_char(s: &Vec<char>, c: char) -> (r: bool)
    ensures
        r == s@.contains(c),
{
    let mut i: usize = 0;
    while i < s.len()
        invariant
            0 <= i <= s.len(),
            forall|k: int| 0 <= k < i ==> s@[k] != c,
        decreases s.len() - i,
    {
        if s[i] == c {
            assert(s@[i as int] == c);
            return true;
        }
        i += 1;
    }
    false
}

/// Checks a script name: `Ok` when it is acceptable, otherwise the reason.
pub fn validate_script_name(name: &str) -> (r: Result<(), PersistenceError>)
    ensures
        match r {
            Ok(()) => script_name_problem(name@) is None,
            Err(PersistenceError::InvalidName(msg)) => script_name_problem(name@) == Some(msg@),
            Err(_) => false,
        },
{
    let cs = chars_of(name);
    if cs.len() == 0 {
        return Err(
            PersistenceError::InvalidName(string_of(&chars_of("script name cannot be empty"))),
        );
    }
    if has_char(&cs, '\0') {
        return Err(
            PersistenceError::InvalidName(
                string_of(&chars_of("script name cannot contain null bytes")),
            ),
        );
    }
    if has_char(&cs, '/') || has_char(&cs, '\\') {
        return Err(
            PersistenceError::InvalidName(
                string_of(&chars_of("script name cannot contain path separators")),
            ),
        );
    }
    let mut i: usize = 0;
    while i < cs.len()
        invariant
            0 <= i <= cs.len(),
            cs@ == name@,
            cs.len() > 0,
            !name@.contains('\0'),
            !name@.contains('/'),
            !name@.contains('\\'),
            forall|k: int| 0 <= k < i ==> name_char_ok(#[trigger] cs@[k]),
        decreases cs.len() - i,
    {
        let c = cs[i];
        if !(is_alphanumeric(c) || c == '_' || c == '-') {
            assert(!name_char_ok(cs@[i as int]));
            return Err(
                PersistenceError::InvalidName(
                    string_of(
                        &chars_of(
                            "script name must contain only alphanumeric characters, underscores, and hyphens",
                        ),
                    ),
                ),
            );
        }
        i += 1;
    }
    Ok(())
}

} // verus!
