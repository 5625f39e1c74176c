//! A JSON value model, the ordering of object keys, and the request body
//! built from form data.

use vstd::prelude::*;
use vstd::string::StrSliceExecFns;
use crate::form::{parse_form_pairs, represents, form_map};

verus! {

broadcast use vstd::seq_lib::group_to_multiset_ensures;

/// A JSON document. A number keeps its textual form; an object keeps its
/// members in the order they are held.
#[derive(Debug)]
pub enum Json {
    Null,
    Bool(bool),
    Number(String),
    Str(String),
    Array(Vec<Json>),
    Object(Vec<(String, Json)>),
}

/// Lexicographic order on keys, character by character by code point; a
/// prefix comes first.
pub open spec fn key_le(a: Seq<char>, b: Seq<char>) -> bool
    decreases a.len(),
{
    if a.len() == 0 {
        true
    } else if b.len() == 0 {
        false
    } else if a[0] as u32 != b[0] as u32 {
        (a[0] as u32) < (b[0] as u32)
    } else {
        key_le(a.drop_first(), b.drop_first())
    }
}

/// Any two keys are ordered one way or the other.
pub proof fn lemma_key_le_total(a: Seq<char>, b: Seq<char>)
    ensures
        key_le(a, b) || key_le(b, a),
    decreases a.len(),
{
    if a.len() > 0 && b.len() > 0 && a[0] as u32 == b[0] as u32 {
        lemma_key_le_total(a.drop_first(), b.drop_first());
    }
}

/// The key order is transitive.
pub proof fn lemma_key_le_trans(a: Seq<char>, b: Seq<char>, c: Seq<char>)
    requires
        key_le(a, b),
        key_le(b, c),
    ensures
        key_le(a, c),
    decreases a.len(),
{
    if a.len() > 0 && b.len() > 0 && c.len() > 0 && a[0] as u32 == b[0] as u32 && b[0] as u32
        == c[0] as u32 {
        lemma_key_le_trans(a.drop_first(), b.drop_first(), c.drop_first());
    }
}

/// The members of `e` stand in ascending key order.
pub open spec fn keys_sorted(e: Seq<(String, Json)>) -> bool {
    forall|i: int, j: int| 0 <= i < j < e.len() ==> key_le(#[trigger] e[i].0@, #[trigger] e[j].0@)
}

/// Whether key `a` comes no later than key `b`.
pub fn key_le_exec(a: &str, b: &str) -> (r: bool)
    ensures
        r == key_le(a@, b@),
{
    let na: usize = a.unicode_len();
    let nb: usize = b.unicode_len();
    let mut i: usize = 0;
    assert(a@.subrange(0, na as int) =~= a@);
    assert(b@.subrange(0, nb as int) =~= b@);
    while i < na && i < nb
        invariant
            i <= na == a@.len(),
            i <= nb == b@.len(),
            key_le(a@, b@) == key_le(a@.subrange(i as int, na as int), b@.subrange(i as int, nb as int)),
        decreases na - i,
    {
        let ca = a.get_char(i);
        let cb = b.get_char(i);
        assert(a@.subrange(i as int, na as int).drop_first() =~= a@.subrange(i + 1, na as int));
        assert(b@.subrange(i as int, nb as int).drop_first() =~= b@.subrange(i + 1, nb as int));
        if ca as u32 != cb as u32 {
            return (ca as u32) < (cb as u32);
        }
        i = i + 1;
    }
    i == na
}

/// Rearranges `entries` into ascending key order.
fn sort_entries(entries: Vec<(String, Json)>) -> (r: Vec<(String, Json)>)
    ensures
        keys_sorted(r@),
        r@.to_multiset() == entries@.to_multiset(),
{
    let mut rest = entries;
    let mut out: Vec<(String, Json)> = Vec::new();
    while rest.len() > 0
        invariant
            keys_sorted(out@),
            rest@.to_multiset().add(out@.to_multiset()) == entries@.to_multiset(),
        decreases rest@.len(),
    {
        let ghost before = rest@;
        let e = rest.pop().unwrap();
        assert(before =~= rest@.push(e));
        let mut p: usize = 0;
        while p < out.len() && key_le_exec(out[p].0.as_str(), e.0.as_str())
            invariant
                p <= out@.len(),
                forall|t: int| 0 <= t < p ==> key_le(#[trigger] out@[t].0@, e.0@),
            decreases out@.len() - p,
        {
            p = p + 1;
        }
        let ghost old_out = out@;
        proof {
            if p < old_out.len() {
                lemma_key_le_total(old_out[p as int].0@, e.0@);
            }
        }
        out.insert(p, e);
        assert forall|i: int, j: int| 0 <= i < j < out@.len() implies key_le(
            #[trigger] out@[i].0@,
            #[trigger] out@[j].0@,
        ) by {
            if j == p {
            } else if i == p {
                if j - 1 > p {
                    lemma_key_le_trans(e.0@, old_out[p as int].0@, old_out[j - 1].0@);
                }
            } else if i > p {
                assert(key_le(old_out[i - 1].0@, old_out[j - 1].0@));
            } else if j > p {
                assert(key_le(old_out[i].0@, old_out[j - 1].0@));
            } else {
                assert(key_le(old_out[i].0@, old_out[j].0@));
            }
        }
    }
    out
}

/// Puts the members of a top-level object in ascending key order; nested
/// values are left as they are. A value that is not an object gives `None`.
pub fn sort_json_keys(value: Json) -> (r: Option<Json>)
    ensures
        value is Object <==> r is Some,
        value is Object ==> r.unwrap() is Object
            && keys_sorted(r.unwrap()->Object_0@)
            && r.unwrap()->Object_0@.to_multiset() == value->Object_0@.to_multiset(),
{
    match value {
        Json::Object(entries) => Some(Json::Object(sort_entries(entries))),
        _ => None,
    }
}

/// The members of `e`, each with the text of its value.
pub open spec fn text_entries(e: Seq<(String, Json)>) -> Seq<(String, String)> {
    e.map_values(|p: (String, Json)| (p.0, p.1->Str_0))
}

/// The request body for form data `data`: an object that maps each key of the
/// form to its value as a JSON string.
pub fn form_body(data: &str) -> (r: Json)
    ensures
        r is Object,
        forall|i: int| 0 <= i < r->Object_0@.len() ==> (#[trigger] r->Object_0@[i]).1 is Str,
        represents(text_entries(r->Object_0@), form_map(data@)),
{
    let mut pairs = parse_form_pairs(data);
    let ghost all = pairs@;
    let mut members: Vec<(String, Json)> = Vec::new();
    while pairs.len() > 0
        invariant
            pairs@.len() + members@.len() == all.len(),
            forall|t: int| 0 <= t < pairs@.len() ==> pairs@[t] == all[t],
            forall|t: int| 0 <= t < members@.len() ==> (#[trigger] members@[t]).1 is Str,
            forall|t: int| 0 <= t < members@.len() ==>
                (#[trigger] text_entries(members@)[t]) == all[all.len() - 1 - t],
        decreases pairs@.len(),
    {
        let ghost before = members@;
        let (k, v) = pairs.pop().unwrap();
        members.push((k, Json::Str(v)));
        assert(text_entries(members@) =~= text_entries(before).push((k, v)));
    }
    let ghost te = text_entries(members@);
    let ghost m = form_map(data@);
    assert forall|i: int, j: int| 0 <= i < j < te.len() implies te[i].0@ != te[j].0@ by {
        assert(te[i] == all[all.len() - 1 - i]);
        assert(te[j] == all[all.len() - 1 - j]);
    }
    assert forall|i: int| 0 <= i < te.len() implies #[trigger] m.contains_key(te[i].0@) && m[te[i].0@] == te[i].1@ by {
        assert(te[i] == all[all.len() - 1 - i]);
    }
    assert forall|k: Seq<char>| #[trigger] m.contains_key(k) implies exists|i: int| 0 <= i < te.len() && te[i].0@ == k by {
        let t = choose|t: int| 0 <= t < all.len() && all[t].0@ == k;
        assert(te[all.len() - 1 - t] == all[t]);
    }
    Json::Object(members)
}

} // verus!
