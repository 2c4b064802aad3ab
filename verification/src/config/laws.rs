//! What loading promises across files: a setting reads back as the last
//! file that sets it wrote it.
use vstd::prelude::*;

use super::load::merged_of;
use super::loader::merged_lookup;
use super::merge::{
    find_member, insert_position, lemma_insert_position, merge_member, merge_members,
};
use super::ConfigEntry;
use crate::session::{field, field_from, JView};

verus! {

/// The member at `j` is the first named `k` at or after `i`.
pub open spec fn first_at(t: Seq<(Seq<char>, JView)>, k: Seq<char>, i: int, j: int) -> bool {
    &&& i <= j < t.len()
    &&& t[j].0 == k
    &&& forall|m: int| i <= m < j ==> #[trigger] t[m].0 != k
}

/// No member at or after `i` is named `k`.
pub open spec fn absent_from(t: Seq<(Seq<char>, JView)>, k: Seq<char>, i: int) -> bool {
    forall|m: int| i <= m < t.len() ==> #[trigger] t[m].0 != k
}

proof fn lemma_first_some(t: Seq<(Seq<char>, JView)>, k: Seq<char>, i: int, j: int)
    requires
        0 <= i,
        first_at(t, k, i, j),
    ensures
        field_from(t, k, i) == Some(t[j].1),
    decreases j - i,
{
    if i < j {
        assert(t[i].0 != k);
        lemma_first_some(t, k, i + 1, j);
    }
}

proof fn lemma_first_none(t: Seq<(Seq<char>, JView)>, k: Seq<char>, i: int)
    requires
        0 <= i,
        absent_from(t, k, i),
    ensures
        field_from(t, k, i) is None,
    decreases t.len() - i,
{
    if i < t.len() {
        assert(t[i].0 != k);
        lemma_first_none(t, k, i + 1);
    }
}

proof fn lemma_field_shape(t: Seq<(Seq<char>, JView)>, k: Seq<char>, i: int)
    requires
        0 <= i,
    ensures
        field_from(t, k, i) is None ==> absent_from(t, k, i),
        field_from(t, k, i) matches Some(v) ==> exists|j: int| #[trigger] first_at(t, k, i, j) && t[j].1 == v,
    decreases t.len() - i,
{
    if i < t.len() {
        if t[i].0 == k {
            assert(first_at(t, k, i, i));
        } else {
            lemma_field_shape(t, k, i + 1);
            if let Some(v) = field_from(t, k, i) {
                let j = choose|j: int| #[trigger] first_at(t, k, i + 1, j) && t[j].1 == v;
                assert(first_at(t, k, i, j));
            }
        }
    }
}

proof fn lemma_find_shape(t: Seq<(Seq<char>, JView)>, k: Seq<char>, i: int)
    requires
        0 <= i,
    ensures
        find_member(t, k, i) is None ==> absent_from(t, k, i),
        find_member(t, k, i) matches Some(j) ==> first_at(t, k, i, j),
    decreases t.len() - i,
{
    if i < t.len() && t[i].0 != k {
        lemma_find_shape(t, k, i + 1);
    }
}

/// Merging a member of another name leaves what `k` reads as.
proof fn lemma_merge_member_other(t: Seq<(Seq<char>, JView)>, e: (Seq<char>, JView), k: Seq<char>)
    requires
        e.0 != k,
    ensures
        field(merge_member(t, e), k) == field(t, k),
{
    let t2 = merge_member(t, e);
    lemma_find_shape(t, e.0, 0);
    lemma_field_shape(t, k, 0);
    match find_member(t, e.0, 0) {
        Some(i) => {
            assert(t2.len() == t.len());
            assert(t2[i].0 == e.0);
            assert forall|m: int| 0 <= m < t.len() && m != i implies #[trigger] t2[m] == t[m] by {}
            match field(t, k) {
                Some(v) => {
                    let j = choose|j: int| #[trigger] first_at(t, k, 0, j) && t[j].1 == v;
                    assert(j != i);
                    assert(first_at(t2, k, 0, j));
                    lemma_first_some(t2, k, 0, j);
                },
                None => {
                    assert(absent_from(t2, k, 0));
                    lemma_first_none(t2, k, 0);
                },
            }
        },
        None => {
            let p = insert_position(t, e.0, 0);
            lemma_insert_position(t, e.0, 0);
            assert(t2 == t.insert(p, e));
            match field(t, k) {
                Some(v) => {
                    let j = choose|j: int| #[trigger] first_at(t, k, 0, j) && t[j].1 == v;
                    let j2 = if j < p { j } else { j + 1 };
                    assert(t2[j2] == t[j]);
                    assert forall|m: int| 0 <= m < j2 implies #[trigger] t2[m].0 != k by {
                        if m < p {
                            assert(t2[m] == t[m]);
                        } else if m > p {
                            assert(t2[m] == t[m - 1]);
                        }
                    }
                    assert(first_at(t2, k, 0, j2));
                    lemma_first_some(t2, k, 0, j2);
                },
                None => {
                    assert forall|m: int| 0 <= m < t2.len() implies #[trigger] t2[m].0 != k by {
                        if m < p {
                            assert(t2[m] == t[m]);
                        } else if m > p {
                            assert(t2[m] == t[m - 1]);
                        }
                    }
                    lemma_first_none(t2, k, 0);
                },
            }
        },
    }
}

/// Merging a member whose value is not an object makes its name read as
/// that value.
proof fn lemma_merge_member_same(t: Seq<(Seq<char>, JView)>, e: (Seq<char>, JView))
    requires
        !(e.1 is Object),
    ensures
        field(merge_member(t, e), e.0) == Some(e.1),
{
    let t2 = merge_member(t, e);
    lemma_find_shape(t, e.0, 0);
    match find_member(t, e.0, 0) {
        Some(i) => {
            assert(t2 == t.update(i, e));
            assert(first_at(t2, e.0, 0, i));
            lemma_first_some(t2, e.0, 0, i);
        },
        None => {
            let p = insert_position(t, e.0, 0);
            lemma_insert_position(t, e.0, 0);
            assert(t2 == t.insert(p, e));
            assert forall|m: int| 0 <= m < p implies #[trigger] t2[m].0 != e.0 by {
                assert(t2[m] == t[m]);
            }
            assert(first_at(t2, e.0, 0, p));
            lemma_first_some(t2, e.0, 0, p);
        },
    }
}

/// Merging members none of which is named `k` leaves what `k` reads as.
proof fn lemma_merge_members_keep(t: Seq<(Seq<char>, JView)>, src: Seq<(Seq<char>, JView)>, k: Seq<char>)
    requires
        absent_from(src, k, 0),
    ensures
        field(merge_members(t, src), k) == field(t, k),
    decreases src.len(),
{
    if src.len() > 0 {
        let front = src.subrange(0, src.len() - 1);
        assert(absent_from(front, k, 0)) by {
            assert forall|m: int| 0 <= m < front.len() implies #[trigger] front[m].0 != k by {
                assert(front[m] == src[m]);
            }
        }
        lemma_merge_members_keep(t, front, k);
        assert(src[src.len() - 1].0 != k);
        lemma_merge_member_other(merge_members(t, front), src[src.len() - 1], k);
    }
}

/// Merging members whose last one named `k` holds `v`, not an object,
/// makes `k` read as `v`.
proof fn lemma_merge_members_last(
    t: Seq<(Seq<char>, JView)>,
    src: Seq<(Seq<char>, JView)>,
    q: int,
    k: Seq<char>,
    v: JView,
)
    requires
        0 <= q < src.len(),
        src[q] == (k, v),
        !(v is Object),
        absent_from(src, k, q + 1),
    ensures
        field(merge_members(t, src), k) == Some(v),
    decreases src.len(),
{
    let n = src.len() - 1;
    let front = src.subrange(0, n);
    if q == n {
        lemma_merge_member_same(merge_members(t, front), src[n]);
    } else {
        assert(front[q] == src[q]);
        assert(absent_from(front, k, q + 1)) by {
            assert forall|m: int| q + 1 <= m < front.len() implies #[trigger] front[m].0 != k by {
                assert(front[m] == src[m]);
            }
        }
        lemma_merge_members_last(t, front, q, k, v);
        assert(src[n].0 != k);
        lemma_merge_member_other(merge_members(t, front), src[n], k);
    }
}

/// The merged lookup reads the first member of that name.
proof fn lemma_lookup_is_field(s: Seq<(Seq<char>, JView)>, k: Seq<char>, i: int)
    requires
        0 <= i <= s.len(),
    ensures
        merged_lookup(s.skip(i), k) == field_from(s, k, i),
    decreases s.len() - i,
{
    if i < s.len() {
        assert(s.skip(i)[0] == s[i]);
        assert(s.skip(i).drop_first() =~= s.skip(i + 1));
        lemma_lookup_is_field(s, k, i + 1);
    } else {
        assert(s.skip(i).len() == 0);
    }
}

/// The file's JSON is an object with a member named `k`.
pub open spec fn sets_key(f: Option<JView>, k: Seq<char>) -> bool {
    match f {
        Some(JView::Object(o)) => exists|m: int| 0 <= m < o.len() && #[trigger] o[m].0 == k,
        _ => false,
    }
}

/// A setting reads back as the last file that sets it wrote it: when the
/// file at `i` holds an object whose last member named `k` is `v`, not an
/// object, and no later file sets `k`, the merged settings read `k` as `v`.
pub proof fn lemma_last_setting_wins(
    files: Seq<(ConfigEntry, Option<JView>)>,
    i: int,
    o: Seq<(Seq<char>, JView)>,
    q: int,
    k: Seq<char>,
    v: JView,
)
    requires
        0 <= i < files.len(),
        files[i].1 == Some(JView::Object(o)),
        0 <= q < o.len(),
        o[q] == (k, v),
        !(v is Object),
        forall|m: int| q < m < o.len() ==> #[trigger] o[m].0 != k,
        forall|j: int| i < j < files.len() ==> !sets_key(#[trigger] files[j].1, k),
    ensures
        merged_lookup(merged_of(files), k) == Some(v),
    decreases files.len(),
{
    let rest = files.drop_last();
    if i == files.len() - 1 {
        lemma_merge_members_last(merged_of(rest), o, q, k, v);
    } else {
        assert(rest[i] == files[i]);
        assert forall|j: int| i < j < rest.len() implies !sets_key(#[trigger] rest[j].1, k) by {
            assert(rest[j] == files[j]);
        }
        lemma_last_setting_wins(rest, i, o, q, k, v);
        lemma_lookup_is_field(merged_of(rest), k, 0);
        assert(merged_of(rest).skip(0) =~= merged_of(rest));
        let last = files[files.len() - 1].1;
        assert(!sets_key(last, k));
        if let Some(JView::Object(p)) = last {
            assert(absent_from(p, k, 0));
            lemma_merge_members_keep(merged_of(rest), p, k);
        }
    }
    lemma_lookup_is_field(merged_of(files), k, 0);
    assert(merged_of(files).skip(0) =~= merged_of(files));
}

} // verus!
