//! Deep-merging configuration objects: a later file's keys override an
//! earlier file's, and objects present in both are merged key by key.
use vstd::prelude::*;

use crate::session::{copy_json, jmembers, lemma_compound_view, JView, JsonValue};
use crate::text::{chars_of, eq_vec, lex_less, lex_lt};

verus! {

/// The first position at or after `i` of a member named `k`.
pub open spec fn find_member(t: Seq<(Seq<char>, JView)>, k: Seq<char>, i: int) -> Option<int>
    decreases t.len() - i,
{
    if i < 0 || i >= t.len() {
        None
    } else if t[i].0 == k {
        Some(i)
    } else {
        find_member(t, k, i + 1)
    }
}

/// The position at or after `i` where a new member named `k` goes to keep
/// names in ascending order: before the first name above `k`.
pub open spec fn insert_position(t: Seq<(Seq<char>, JView)>, k: Seq<char>, i: int) -> int
    decreases t.len() - i,
{
    if i < 0 || i >= t.len() {
        t.len() as int
    } else if lex_lt(k, t[i].0) {
        i
    } else {
        insert_position(t, k, i + 1)
    }
}

/// What `find_member` finds is a member of that name.
pub(crate) proof fn lemma_find_member(t: Seq<(Seq<char>, JView)>, k: Seq<char>, i: int)
    requires
        0 <= i,
    ensures
        find_member(t, k, i) matches Some(j) ==> i <= j < t.len() && t[j].0 == k,
    decreases t.len() - i,
{
    if i < t.len() && t[i].0 != k {
        lemma_find_member(t, k, i + 1);
    }
}

/// The insert position lies within the members, or just past them.
pub(crate) proof fn lemma_insert_position(t: Seq<(Seq<char>, JView)>, k: Seq<char>, i: int)
    requires
        0 <= i,
    ensures
        0 <= insert_position(t, k, i) <= t.len(),
    decreases t.len() - i,
{
    if i < t.len() && !lex_lt(k, t[i].0) {
        lemma_insert_position(t, k, i + 1);
    }
}

/// The members of `t` with the members of `src` merged in, in order.
pub open spec fn merge_members(t: Seq<(Seq<char>, JView)>, src: Seq<(Seq<char>, JView)>) -> Seq<
    (Seq<char>, JView),
>
    decreases src,
{
    if src.len() == 0 {
        t
    } else {
        merge_member(merge_members(t, src.subrange(0, src.len() - 1)), src[src.len() - 1])
    }
}

/// The members of `t` with one member merged in: an object meeting an
/// object is merged key by key; otherwise the new value replaces the old
/// one, or is added in name order.
pub open spec fn merge_member(t: Seq<(Seq<char>, JView)>, e: (Seq<char>, JView)) -> Seq<
    (Seq<char>, JView),
>
    decreases e,
{
    match find_member(t, e.0, 0) {
        Some(i) => if t[i].1 is Object && e.1 is Object {
            t.update(i, (e.0, JView::Object(merge_members(t[i].1->Object_0, e.1->Object_0))))
        } else {
            t.update(i, e)
        },
        None => t.insert(insert_position(t, e.0, 0), e),
    }
}

/// Where the member named `key` stands in `t`, if any.
fn find_member_index(t: &Vec<(String, JsonValue)>, key: &String) -> (r: Option<usize>)
    ensures
        match r {
            Some(i) => find_member(jmembers(t@), key@, 0) == Some(i as int),
            None => find_member(jmembers(t@), key@, 0) is None,
        },
{
    let ghost v = jmembers(t@);
    let k = chars_of(key.as_str());
    let mut i: usize = 0;
    while i < t.len()
        invariant
            0 <= i <= t.len(),
            v == jmembers(t@),
            k@ == key@,
            find_member(v, key@, 0) == find_member(v, key@, i as int),
        decreases t.len() - i,
    {
        let here = chars_of(t[i].0.as_str());
        if eq_vec(&here, &k) {
            return Some(i);
        }
        i += 1;
    }
    None
}

/// Where a new member named `key` goes in `t`.
fn insert_index(t: &Vec<(String, JsonValue)>, key: &String) -> (r: usize)
    ensures
        r == insert_position(jmembers(t@), key@, 0),
{
    let ghost v = jmembers(t@);
    let k = chars_of(key.as_str());
    let mut i: usize = 0;
    while i < t.len()
        invariant
            0 <= i <= t.len(),
            v == jmembers(t@),
            k@ == key@,
            insert_position(v, key@, 0) == insert_position(v, key@, i as int),
        decreases t.len() - i,
    {
        let here = chars_of(t[i].0.as_str());
        if lex_less(&k, &here) {
            return i;
        }
        i += 1;
    }
    i
}

/// Merges one member into `target`.
pub fn merge_one(target: &mut Vec<(String, JsonValue)>, key: &String, value: &JsonValue)
    ensures
        jmembers(final(target)@) == merge_member(jmembers(old(target)@), (key@, value@)),
    decreases value,
{
    proof {
        lemma_compound_view(*value);
    }
    let ghost t0 = jmembers(target@);
    proof {
        lemma_find_member(t0, key@, 0);
        lemma_insert_position(t0, key@, 0);
    }
    match find_member_index(target, key) {
        Some(i) => {
            let both = match (&target[i].1, value) {
                (JsonValue::Object(_), JsonValue::Object(_)) => true,
                _ => false,
            };
            proof {
                lemma_compound_view(target@[i as int].1);
                assert(t0[i as int] == (target@[i as int].0@, target@[i as int].1@));
            }
            if both {
                let ghost orig = target@;
                let removed = target.remove(i);
                proof {
                    assert(find_member(t0, key@, 0) == Some(i as int));
                    assert(t0[i as int].0 == key@);
                    assert(orig == old(target)@);
                    assert(removed == orig[i as int]);
                    assert(t0[i as int].0 == orig[i as int].0@);
                    assert(t0[i as int].1 == orig[i as int].1@);
                }
                let (k, old_value) = removed;
                proof {
                    assert(k@ == key@);
                    assert(old_value is Object && *value is Object);
                }
                match (old_value, value) {
                    (JsonValue::Object(mut inner), JsonValue::Object(incoming)) => {
                        proof {
                            assert(decreases_to!(*value => *incoming));
                        }
                        merge_object(&mut inner, incoming);
                        let ghost merged = jmembers(inner@);
                        let nv = JsonValue::Object(inner);
                        proof {
                            lemma_compound_view(nv);
                        }
                        target.insert(i, (k, nv));
                        proof {
                            assert(target@ =~= orig.update(i as int, target@[i as int]));
                            assert(jmembers(target@) =~= t0.update(
                                i as int,
                                (key@, JView::Object(merged)),
                            ));
                        }
                    },
                    _ => {},
                }
            } else {
                target.set(i, (key.clone(), value.clone()));
                proof {
                    assert(jmembers(target@) =~= t0.update(i as int, (key@, value@)));
                }
            }
        },
        None => {
            let p = insert_index(target, key);
            target.insert(p, (key.clone(), value.clone()));
            proof {
                assert(jmembers(target@) =~= t0.insert(p as int, (key@, value@)));
            }
        },
    }
}

/// Merges the members of `source` into `target`, one after another.
pub fn merge_object(target: &mut Vec<(String, JsonValue)>, source: &Vec<(String, JsonValue)>)
    ensures
        jmembers(final(target)@) == merge_members(jmembers(old(target)@), jmembers(source@)),
    decreases source,
{
    let ghost t0 = jmembers(target@);
    let ghost sv = jmembers(source@);
    let mut i: usize = 0;
    assert(sv.subrange(0, 0) =~= Seq::<(Seq<char>, JView)>::empty());
    while i < source.len()
        invariant
            0 <= i <= source.len(),
            sv == jmembers(source@),
            jmembers(target@) == merge_members(t0, sv.subrange(0, i as int)),
            decreases_to!(*source => source@),
        decreases source.len() - i,
    {
        proof {
            assert(decreases_to!(source@ => source@[i as int]));
            assert(decreases_to!(source@[i as int] => source@[i as int].1));
            assert(sv.subrange(0, i + 1).subrange(0, i as int) =~= sv.subrange(0, i as int));
            assert(sv.subrange(0, i + 1)[i as int] == sv[i as int]);
        }
        merge_one(target, &source[i].0, &source[i].1);
        i += 1;
    }
    assert(sv.subrange(0, source.len() as int) =~= sv);
}

} // verus!
