//! Evidence about task classes, domains and site access.
use vstd::prelude::*;

use crate::paths::{join_path, path_join};
use crate::text::{chars_of, is_ascii_alnum, is_ascii_alnum_char, push_str, string_of, views};

verus! {

/// What is known about logging in to a site.
#[derive(Debug, Clone, Copy, PartialEq, Eq, Structural)]
pub enum AccessStatus {
    Unknown,
    Registered,
    LoggedInObserved,
    RequiresLogin,
    NotAvailable,
}

/// What worked for a class of tasks.
#[derive(Debug, Clone, PartialEq, Eq)]
pub struct TaskEvidence {
    pub task_class: String,
    pub successful_routes: Vec<Vec<String>>,
    pub tools: Vec<String>,
    pub output_fields: Vec<String>,
    pub success_count: u32,
    pub failure_count: u32,
    pub last_used_epoch_secs: u64,
}

/// What worked on a domain.
#[derive(Debug, Clone, PartialEq, Eq)]
pub struct DomainEvidence {
    pub domain: String,
    pub task_classes: Vec<String>,
    pub successful_routes: Vec<Vec<String>>,
    pub field_hints: Vec<String>,
    pub success_count: u32,
    pub failure_count: u32,
    pub last_verified_epoch_secs: u64,
}

/// What is known about access to a domain.
#[derive(Debug, Clone, PartialEq, Eq)]
pub struct AccessEvidence {
    pub domain: String,
    pub status: AccessStatus,
    pub extension_mode: bool,
    pub last_confirmed_epoch_secs: u64,
    pub notes: Option<String>,
}

/// Views of a sequence of string sequences.
pub open spec fn views2(v: Seq<Vec<String>>) -> Seq<Seq<Seq<char>>> {
    v.map_values(|r: Vec<String>| views(r@))
}

/// Task evidence as values.
pub struct TaskEvidenceView {
    pub task_class: Seq<char>,
    pub successful_routes: Seq<Seq<Seq<char>>>,
    pub tools: Seq<Seq<char>>,
    pub output_fields: Seq<Seq<char>>,
    pub success_count: u32,
    pub failure_count: u32,
    pub last_used_epoch_secs: u64,
}

impl View for TaskEvidence {
    type V = TaskEvidenceView;

    open spec fn view(&self) -> TaskEvidenceView {
        TaskEvidenceView {
            task_class: self.task_class@,
            successful_routes: views2(self.successful_routes@),
            tools: views(self.tools@),
            output_fields: views(self.output_fields@),
            success_count: self.success_count,
            failure_count: self.failure_count,
            last_used_epoch_secs: self.last_used_epoch_secs,
        }
    }
}

/// Domain evidence as values.
pub struct DomainEvidenceView {
    pub domain: Seq<char>,
    pub task_classes: Seq<Seq<char>>,
    pub successful_routes: Seq<Seq<Seq<char>>>,
    pub field_hints: Seq<Seq<char>>,
    pub success_count: u32,
    pub failure_count: u32,
    pub last_verified_epoch_secs: u64,
}

impl View for DomainEvidence {
    type V = DomainEvidenceView;

    open spec fn view(&self) -> DomainEvidenceView {
        DomainEvidenceView {
            domain: self.domain@,
            task_classes: views(self.task_classes@),
            successful_routes: views2(self.successful_routes@),
            field_hints: views(self.field_hints@),
            success_count: self.success_count,
            failure_count: self.failure_count,
            last_verified_epoch_secs: self.last_verified_epoch_secs,
        }
    }
}

/// Characters kept in an evidence file name.
pub open spec fn is_filename_safe(c: char) -> bool {
    is_ascii_alnum(c) || c == '.' || c == '-' || c == '_'
}

/// The file name under which evidence about `raw` is stored: `unknown` for an
/// empty key, else the key with every unsafe character replaced by `_`.
pub open spec fn sanitized(raw: Seq<char>) -> Seq<char> {
    if raw.len() == 0 {
        "unknown"@
    } else {
        raw.map_values(|c: char| if is_filename_safe(c) {
            c
        } else {
            '_'
        })
    }
}

/// The file name under which evidence about `raw` is stored.
pub fn sanitize_filename(raw: &str) -> (r: String)
    ensures
        r@ == sanitized(raw@),
{
    let c = chars_of(raw);
    if c.len() == 0 {
        let u = chars_of("unknown");
        return string_of(&u);
    }
    let mut out: Vec<char> = Vec::new();
    let mut i: usize = 0;
    while i < c.len()
        invariant
            0 <= i <= c.len(),
            out@.len() == i,
            forall|k: int| 0 <= k < i ==> #[trigger] out@[k] == (if is_filename_safe(c@[k]) {
                c@[k]
            } else {
                '_'
            }),
        decreases c.len() - i,
    {
        let ch = c[i];
        if is_ascii_alnum_char(ch) || ch == '.' || ch == '-' || ch == '_' {
            out.push(ch);
        } else {
            out.push('_');
        }
        i += 1;
    }
    assert(out@ =~= sanitized(raw@));
    string_of(&out)
}

/// Where evidence files are kept: one JSON file per task class, domain or
/// access record, under `<root>/memory/evidence`.
#[derive(Debug, Clone, PartialEq, Eq)]
pub struct EvidenceStore {
    pub(crate) root: String,
}

/// The evidence directory under `root`.
pub open spec fn evidence_dir_of(root: Seq<char>) -> Seq<char> {
    path_join(path_join(root, "memory"@), "evidence"@)
}

/// The file holding the evidence about `key` in the subdirectory `kind`.
pub open spec fn evidence_file_of(root: Seq<char>, kind: Seq<char>, key: Seq<char>) -> Seq<char> {
    path_join(path_join(evidence_dir_of(root), kind), sanitized(key) + ".json"@)
}

impl EvidenceStore {
    /// The directory the store lives under.
    pub closed spec fn root_path(&self) -> Seq<char> {
        self.root@
    }

    /// A store under `root`.
    pub fn new(root: &str) -> (s: Self)
        ensures
            s.root_path() == root@,
    {
        EvidenceStore { root: string_of(&chars_of(root)) }
    }

    /// `<root>/memory/evidence`.
    pub fn evidence_dir(&self) -> (r: String)
        ensures
            r@ == evidence_dir_of(self.root_path()),
    {
        let m = join_path(self.root.as_str(), "memory");
        join_path(m.as_str(), "evidence")
    }

    /// The directory of the evidence kind `kind` (`tasks`, `domains` or `access`).
    fn kind_dir(&self, kind: &str) -> (r: String)
        ensures
            r@ == path_join(evidence_dir_of(self.root_path()), kind@),
    {
        let d = self.evidence_dir();
        join_path(d.as_str(), kind)
    }

    /// `<root>/memory/evidence/tasks`.
    pub fn tasks_dir(&self) -> (r: String)
        ensures
            r@ == path_join(evidence_dir_of(self.root_path()), "tasks"@),
    {
        self.kind_dir("tasks")
    }

    /// `<root>/memory/evidence/domains`.
    pub fn domains_dir(&self) -> (r: String)
        ensures
            r@ == path_join(evidence_dir_of(self.root_path()), "domains"@),
    {
        self.kind_dir("domains")
    }

    /// `<root>/memory/evidence/access`.
    pub fn access_dir(&self) -> (r: String)
        ensures
            r@ == path_join(evidence_dir_of(self.root_path()), "access"@),
    {
        self.kind_dir("access")
    }

    /// The file of the evidence about `key` in the subdirectory `kind`: the
    /// sanitized key with `.json` appended.
    fn evidence_file(&self, kind: &str, key: &str) -> (r: String)
        ensures
            r@ == evidence_file_of(self.root_path(), kind@, key@),
    {
        let d = self.kind_dir(kind);
        let mut name = chars_of(sanitize_filename(key).as_str());
        push_str(&mut name, ".json");
        let n = string_of(&name);
        join_path(d.as_str(), n.as_str())
    }

    /// The file holding the evidence about the task class `task_class`.
    pub fn task_evidence_path(&self, task_class: &str) -> (r: String)
        ensures
            r@ == evidence_file_of(self.root_path(), "tasks"@, task_class@),
    {
        self.evidence_file("tasks", task_class)
    }

    /// The file holding the evidence about `domain`.
    pub fn domain_evidence_path(&self, domain: &str) -> (r: String)
        ensures
            r@ == evidence_file_of(self.root_path(), "domains"@, domain@),
    {
        self.evidence_file("domains", domain)
    }

    /// The file holding the access record of `domain`.
    pub fn access_evidence_path(&self, domain: &str) -> (r: String)
        ensures
            r@ == evidence_file_of(self.root_path(), "access"@, domain@),
    {
        self.evidence_file("access", domain)
    }
}

/// Evidence file names hold only safe characters, and sanitizing a sanitized
/// name changes nothing.
pub proof fn lemma_sanitized_is_safe_and_stable(raw: Seq<char>)
    ensures
        forall|i: int| 0 <= i < sanitized(raw).len() ==> is_filename_safe(#[trigger] sanitized(raw)[i]),
        sanitized(raw).len() > 0,
        sanitized(sanitized(raw)) == sanitized(raw),
{
    reveal_strlit("unknown");
    let s = sanitized(raw);
    assert(s.len() > 0);
    assert forall|i: int| 0 <= i < s.len() implies is_filename_safe(#[trigger] s[i]) by {}
    assert(sanitized(s) =~= s);
}

} // verus!
