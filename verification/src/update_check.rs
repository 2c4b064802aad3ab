//! Whether a newer release exists: version parsing and comparison, and the
//! freshness of the cached answer.
use std::cmp::Ordering;

use vstd::prelude::*;

use crate::text::{
    chars_of, contains, contains_str, parse_u32, parse_u32_vec, split_chars, split_on, string_of,
    vviews,
};

verus! {

/// The outcome of a release check.
#[derive(Debug, Clone, PartialEq, Eq)]
pub struct UpdateInfo {
    pub latest_version: String,
    pub current_version: String,
    pub is_outdated: bool,
}

/// The cached answer of the last release check.
#[derive(Debug, Clone, PartialEq, Eq)]
pub struct UpdateCache {
    pub latest_version: String,
    /// When the check ran, as an RFC 3339 timestamp.
    pub checked_at: String,
}

/// `version` without one leading `v`.
pub open spec fn without_v(version: Seq<char>) -> Seq<char> {
    if version.len() > 0 && version[0] == 'v' {
        version.drop_first()
    } else {
        version
    }
}

/// The dot-separated numbers of `version`, if every piece is a `u32`.
pub open spec fn version_parts(version: Seq<char>) -> Option<Seq<u32>> {
    let pieces = split_on(version, '.');
    if forall|k: int| 0 <= k < pieces.len() ==> (#[trigger] parse_u32(pieces[k])) is Some {
        Some(pieces.map_values(|p: Seq<char>| parse_u32(p)->0))
    } else {
        None
    }
}

/// Component `i` of a version, 0 past its end.
pub open spec fn part_at(x: Seq<u32>, i: int) -> u32 {
    if 0 <= i < x.len() {
        x[i]
    } else {
        0
    }
}

/// How `x` compares with `y` from component `i` on, the shorter padded with
/// zeros: -1 when `x` is older, 1 when newer, 0 when equal.
pub open spec fn version_code_from(x: Seq<u32>, y: Seq<u32>, i: int) -> int
    decreases x.len() + y.len() - i,
{
    if i < 0 || (i >= x.len() && i >= y.len()) {
        0
    } else if part_at(x, i) < part_at(y, i) {
        -1
    } else if part_at(x, i) > part_at(y, i) {
        1
    } else {
        version_code_from(x, y, i + 1)
    }
}

/// The ordering a comparison code stands for.
pub open spec fn ordering_of(code: int) -> Ordering {
    if code < 0 {
        Ordering::Less
    } else if code == 0 {
        Ordering::Equal
    } else {
        Ordering::Greater
    }
}

/// How two version strings compare, if both parse.
pub open spec fn version_comparison(current: Seq<char>, latest: Seq<char>) -> Option<Ordering> {
    match (version_parts(current), version_parts(latest)) {
        (Some(a), Some(b)) => Some(ordering_of(version_code_from(a, b, 0))),
        _ => None,
    }
}

/// What a release check reports: nothing for a pre-release or an unparsable
/// version, otherwise both versions and whether the current one is older.
pub open spec fn update_info_for(current: Seq<char>, latest: Seq<char>) -> Option<
    (Seq<char>, Seq<char>, bool),
> {
    if contains(latest, seq!['-']) {
        None
    } else {
        match version_comparison(current, latest) {
            Some(o) => Some((latest, current, o == Ordering::Less)),
            None => None,
        }
    }
}

/// `version` without one leading `v`.
pub fn strip_version_prefix(version: &str) -> (r: String)
    ensures
        r@ == without_v(version@),
{
    let cs = chars_of(version);
    if cs.len() > 0 && cs[0] == 'v' {
        let t = crate::text::slice_chars(&cs, 1, cs.len());
        assert(t@ =~= cs@.drop_first());
        string_of(&t)
    } else {
        string_of(&cs)
    }
}

/// The dot-separated numbers of `version`, or `None` if a piece is not a `u32`.
pub fn parse_version(version: &str) -> (r: Option<Vec<u32>>)
    ensures
        match r {
            Some(v) => version_parts(version@) == Some(v@),
            None => version_parts(version@) is None,
        },
{
    let cs = chars_of(version);
    let pieces = split_chars(&cs, '.');
    let ghost ps = split_on(version@, '.');
    let mut out: Vec<u32> = Vec::new();
    let mut i: usize = 0;
    while i < pieces.len()
        invariant
            0 <= i <= pieces.len(),
            ps == split_on(version@, '.'),
            vviews(pieces@) == ps,
            out@.len() == i,
            forall|k: int| 0 <= k < i ==> (#[trigger] parse_u32(ps[k])) == Some(out@[k]),
        decreases pieces.len() - i,
    {
        assert(vviews(pieces@)[i as int] == pieces@[i as int]@);
        match parse_u32_vec(&pieces[i]) {
            Some(n) => {
                out.push(n);
            },
            None => {
                assert(parse_u32(ps[i as int]) is None);
                return None;
            },
        }
        i += 1;
    }
    assert(out@ =~= ps.map_values(|p: Seq<char>| parse_u32(p)->0));
    Some(out)
}

/// How the number lists `a` and `b` compare, the shorter padded with zeros:
/// -1, 0 or 1.
fn compare_parts(a: &Vec<u32>, b: &Vec<u32>) -> (r: i8)
    ensures
        r as int == version_code_from(a@, b@, 0),
{
    let max_len = if a.len() > b.len() {
        a.len()
    } else {
        b.len()
    };
    let mut i: usize = 0;
    while i < max_len
        invariant
            0 <= i <= max_len,
            max_len == a@.len() || max_len == b@.len(),
            a@.len() <= max_len,
            b@.len() <= max_len,
            version_code_from(a@, b@, 0) == version_code_from(a@, b@, i as int),
        decreases max_len - i,
    {
        let x: u32 = if i < a.len() {
            a[i]
        } else {
            0
        };
        let y: u32 = if i < b.len() {
            b[i]
        } else {
            0
        };
        if x < y {
            return -1;
        }
        if x > y {
            return 1;
        }
        i += 1;
    }
    0
}

/// How `current` compares with `latest`, or `None` if either does not parse.
pub fn compare_versions(current_version: &str, latest_version: &str) -> (r: Option<Ordering>)
    ensures
        r == version_comparison(current_version@, latest_version@),
{
    let current = match parse_version(current_version) {
        Some(v) => v,
        None => {
            return None;
        },
    };
    let latest = match parse_version(latest_version) {
        Some(v) => v,
        None => {
            return None;
        },
    };
    let code = compare_parts(&current, &latest);
    if code < 0 {
        Some(Ordering::Less)
    } else if code == 0 {
        Some(Ordering::Equal)
    } else {
        Some(Ordering::Greater)
    }
}

/// The release check outcome for `latest_version` against `current_version`:
/// `None` for a pre-release (a `-` in the version) or an unparsable version.
pub fn build_update_info(current_version: &str, latest_version: &str) -> (r: Option<UpdateInfo>)
    ensures
        match r {
            Some(info) => update_info_for(current_version@, latest_version@) == Some(
                (info.latest_version@, info.current_version@, info.is_outdated),
            ),
            None => update_info_for(current_version@, latest_version@) is None,
        },
{
    proof {
        reveal_strlit("-");
        assert("-"@ =~= seq!['-']);
    }
    if contains_str(latest_version, "-") {
        return None;
    }
    let order = compare_versions(current_version, latest_version);
    match order {
        Some(o) => {
            let is_outdated = match o {
                Ordering::Less => true,
                _ => false,
            };
            Some(
                UpdateInfo {
                    latest_version: string_of(&chars_of(latest_version)),
                    current_version: string_of(&chars_of(current_version)),
                    is_outdated,
                },
            )
        },
        None => None,
    }
}

/// Comparing two versions from some component on, the other way round,
/// gives the opposite answer.
pub proof fn lemma_version_code_antisymmetric(x: Seq<u32>, y: Seq<u32>, i: int)
    ensures
        version_code_from(x, y, i) == -version_code_from(y, x, i),
    decreases x.len() + y.len() - i,
{
    if !(i < 0 || (i >= x.len() && i >= y.len())) && part_at(x, i) == part_at(y, i) {
        lemma_version_code_antisymmetric(x, y, i + 1);
    }
}

/// A version compares equal to itself.
pub proof fn lemma_version_code_reflexive(x: Seq<u32>, i: int)
    ensures
        version_code_from(x, x, i) == 0,
    decreases x.len() + x.len() - i,
{
    if !(i < 0 || i >= x.len()) {
        lemma_version_code_reflexive(x, i + 1);
    }
}

/// Version comparison is a consistent order: a version that parses equals
/// itself, and swapping the two versions reverses the answer.
pub proof fn lemma_version_comparison_consistent(a: Seq<char>, b: Seq<char>)
    ensures
        version_parts(a) is Some ==> version_comparison(a, a) == Some(Ordering::Equal),
        version_comparison(a, b) == Some(Ordering::Less) <==> version_comparison(b, a) == Some(
            Ordering::Greater,
        ),
        version_comparison(a, b) == Some(Ordering::Equal) <==> version_comparison(b, a) == Some(
            Ordering::Equal,
        ),
        version_comparison(a, b) is None <==> version_comparison(b, a) is None,
{
    if let Some(x) = version_parts(a) {
        lemma_version_code_reflexive(x, 0);
        if let Some(y) = version_parts(b) {
            lemma_version_code_antisymmetric(x, y, 0);
        }
    }
}

/// A pre-release is never offered as an update.
pub proof fn lemma_prerelease_never_offered(current: Seq<char>, latest: Seq<char>)
    requires
        latest.contains('-'),
    ensures
        update_info_for(current, latest) is None,
{
    let k = choose|k: int| 0 <= k < latest.len() && latest[k] == '-';
    crate::text::lemma_find_from_some(latest, seq!['-'], 0);
    assert(latest.subrange(k, k + 1) =~= seq!['-']);
    assert(crate::text::match_at(latest, seq!['-'], k));
    if crate::text::find_from(latest, seq!['-'], 0) is None {
        assert(false);
    }
}

/// Nanoseconds a cached release check stays valid: one day.
pub const UPDATE_CHECK_TTL_NANOS: i128 = 24 * 60 * 60 * 1_000_000_000;

/// The instant (Unix nanoseconds) that `time` parses from the RFC 3339
/// timestamp `s`, if it is one.
pub uninterp spec fn rfc3339_instant(s: Seq<char>) -> Option<i128>;

/// `OffsetDateTime::parse(s, &Rfc3339)` as Unix nanoseconds. The result is
/// named, not restated: RFC 3339's grammar is not written out here.
#[verifier::external_body]
fn parse_rfc3339_nanos(s: &str) -> (r: Option<i128>)
    ensures
        r == rfc3339_instant(s@),
{
    match time::OffsetDateTime::parse(s, &time::format_description::well_known::Rfc3339) {
        Ok(t) => Some(t.unix_timestamp_nanos()),
        Err(_) => None,
    }
}

/// `OffsetDateTime::now_utc()` as Unix nanoseconds: the clock, so nothing is
/// stated of it.
#[verifier::external_body]
fn now_unix_nanos() -> i128 {
    time::OffsetDateTime::now_utc().unix_timestamp_nanos()
}

/// A cached answer checked at `checked_at` is fresh at `now` when it is not
/// from the future and less than a day old.
pub open spec fn fresh_at(checked_at: Option<i128>, now: i128) -> bool {
    match checked_at {
        Some(c) => c <= now && now - c < UPDATE_CHECK_TTL_NANOS,
        None => false,
    }
}

/// Whether a cache checked at `checked_at` (an instant, if its timestamp
/// parsed) is still fresh at `now`.
pub fn cache_fresh_at(checked_at: Option<i128>, now: i128) -> (r: bool)
    ensures
        r == fresh_at(checked_at, now),
{
    match checked_at {
        Some(c) => {
            if c > now {
                return false;
            }
            match now.checked_sub(c) {
                Some(d) => d < UPDATE_CHECK_TTL_NANOS,
                None => false,
            }
        },
        None => false,
    }
}

/// Whether the cached answer is still fresh now; a timestamp that does not
/// parse is never fresh.
pub fn is_cache_fresh(cache: &UpdateCache) -> (r: bool)
    ensures
        r ==> rfc3339_instant(cache.checked_at@) is Some,
{
    let checked_at = parse_rfc3339_nanos(cache.checked_at.as_str());
    let now = now_unix_nanos();
    cache_fresh_at(checked_at, now)
}

} // verus!
