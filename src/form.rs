//! Form data: `key=value` pairs joined by `&`, read into a mapping in which a
//! later key replaces an earlier one.

use vstd::prelude::*;
use vstd::string::StrSliceExecFns;
use vstd::string::StringExecFns;

verus! {

/// `j` is the position of the first `=` in `seg`.
pub open spec fn first_eq_at(seg: Seq<char>, j: int) -> bool {
    &&& 0 <= j < seg.len()
    &&& seg[j] == '='
    &&& forall|t: int| 0 <= t < j ==> seg[t] != '='
}

/// The mapping `m` after the segment `seg`: split once at its first `=` into a
/// key and a value that replaces any earlier value of the key; a segment
/// without `=` leaves `m` as it is.
pub open spec fn add_segment(m: Map<Seq<char>, Seq<char>>, seg: Seq<char>) -> Map<Seq<char>, Seq<char>> {
    if exists|j: int| first_eq_at(seg, j) {
        let j = choose|j: int| first_eq_at(seg, j);
        m.insert(seg.subrange(0, j), seg.subrange(j + 1, seg.len() as int))
    } else {
        m
    }
}

/// Reads `s` from the left: `cur` is the segment begun so far and `m` holds
/// the pairs of the segments already closed by an `&`.
pub open spec fn fold_form(m: Map<Seq<char>, Seq<char>>, cur: Seq<char>, s: Seq<char>) -> Map<Seq<char>, Seq<char>>
    decreases s.len(),
{
    if s.len() == 0 {
        add_segment(m, cur)
    } else if s[0] == '&' {
        fold_form(add_segment(m, cur), Seq::empty(), s.drop_first())
    } else {
        fold_form(m, cur.push(s[0]), s.drop_first())
    }
}

/// The mapping that the form data `s` describes.
pub open spec fn form_map(s: Seq<char>) -> Map<Seq<char>, Seq<char>> {
    fold_form(Map::empty(), Seq::empty(), s)
}

/// `v` lists the pairs of `m`, each key once.
pub open spec fn represents(v: Seq<(String, String)>, m: Map<Seq<char>, Seq<char>>) -> bool {
    &&& forall|i: int, j: int| 0 <= i < j < v.len() ==> v[i].0@ != v[j].0@
    &&& forall|i: int| 0 <= i < v.len() ==> #[trigger] m.contains_key(v[i].0@) && m[v[i].0@] == v[i].1@
    &&& forall|k: Seq<char>| #[trigger] m.contains_key(k) ==> exists|i: int| 0 <= i < v.len() && v[i].0@ == k
}

/// Sets `key` to `value`, replacing the pair that holds `key` if there is one.
fn put_pair(pairs: &mut Vec<(String, String)>, key: String, value: String, Ghost(m): Ghost<Map<Seq<char>, Seq<char>>>)
    requires
        represents(old(pairs)@, m),
    ensures
        represents(final(pairs)@, m.insert(key@, value@)),
{
    let mut i: usize = 0;
    while i < pairs.len()
        invariant
            represents(pairs@, m),
            i <= pairs@.len(),
            forall|t: int| 0 <= t < i ==> pairs@[t].0@ != key@,
        decreases pairs@.len() - i,
    {
        if pairs[i].0 == key {
            let ghost before = pairs@;
            pairs.set(i, (key, value));
            let ghost m2 = m.insert(key@, value@);
            assert forall|k: Seq<char>| #[trigger] m2.contains_key(k) implies exists|t: int|
                0 <= t < pairs@.len() && pairs@[t].0@ == k by {
                if k != before[i as int].0@ {
                    let t = choose|t: int| 0 <= t < before.len() && before[t].0@ == k;
                    assert(pairs@[t].0@ == k);
                } else {
                    assert(pairs@[i as int].0@ == k);
                }
            }
            return;
        }
        i = i + 1;
    }
    let ghost before = pairs@;
    let ghost kv = key@;
    pairs.push((key, value));
    let ghost m2 = m.insert(kv, value@);
    assert forall|k: Seq<char>| #[trigger] m2.contains_key(k) implies exists|t: int|
        0 <= t < pairs@.len() && pairs@[t].0@ == k by {
        if k != kv {
            let t = choose|t: int| 0 <= t < before.len() && before[t].0@ == k;
            assert(pairs@[t].0@ == k);
        } else {
            assert(pairs@[before.len() as int].0@ == k);
        }
    }
}

/// Adds the pair of the segment `seg`, if it has one.
fn put_segment(pairs: &mut Vec<(String, String)>, seg: &str, Ghost(m): Ghost<Map<Seq<char>, Seq<char>>>)
    requires
        represents(old(pairs)@, m),
    ensures
        represents(final(pairs)@, add_segment(m, seg@)),
{
    let n: usize = seg.unicode_len();
    let mut j: usize = 0;
    while j < n
        invariant
            j <= n == seg@.len(),
            pairs@ == old(pairs)@,
            represents(pairs@, m),
            forall|t: int| 0 <= t < j ==> seg@[t] != '=',
        decreases n - j,
    {
        if seg.get_char(j) == '=' {
            assert(first_eq_at(seg@, j as int));
            let ghost c = choose|c: int| first_eq_at(seg@, c);
            assert(c == j as int) by {
                if c < j as int {
                    assert(seg@[c] != '=');
                } else if c > j as int {
                    assert(seg@[j as int] != '=');
                }
            }
            let key = String::from_str(seg.substring_char(0, j));
            let value = String::from_str(seg.substring_char(j + 1, n));
            put_pair(pairs, key, value, Ghost(m));
            return;
        }
        j = j + 1;
    }
    assert(!exists|c: int| first_eq_at(seg@, c));
}

/// Reads the form data `data`: segments split on `&`, each split once at its
/// first `=`; segments without `=` are dropped, and a later key replaces an
/// earlier one. The result holds each key of the mapping once.
pub fn parse_form_pairs(data: &str) -> (r: Vec<(String, String)>)
    ensures
        represents(r@, form_map(data@)),
{
    let n: usize = data.unicode_len();
    let mut pairs: Vec<(String, String)> = Vec::new();
    let mut start: usize = 0;
    let mut i: usize = 0;
    let ghost mut m: Map<Seq<char>, Seq<char>> = Map::empty();
    assert(data@.subrange(0, n as int) =~= data@);
    assert(data@.subrange(0, 0) =~= Seq::<char>::empty());
    while i < n
        invariant
            start <= i <= n == data@.len(),
            represents(pairs@, m),
            fold_form(m, data@.subrange(start as int, i as int), data@.subrange(i as int, n as int))
                == form_map(data@),
        decreases n - i,
    {
        let c = data.get_char(i);
        let ghost cur = data@.subrange(start as int, i as int);
        let ghost rest = data@.subrange(i as int, n as int);
        assert(rest.drop_first() =~= data@.subrange(i + 1, n as int));
        assert(rest[0] == c);
        if c == '&' {
            let seg = data.substring_char(start, i);
            put_segment(&mut pairs, seg, Ghost(m));
            proof {
                m = add_segment(m, cur);
            }
            start = i + 1;
            assert(data@.subrange(start as int, start as int) =~= Seq::<char>::empty());
        } else {
            assert(cur.push(c) =~= data@.subrange(start as int, i + 1));
        }
        i = i + 1;
    }
    let seg = data.substring_char(start, n);
    assert(data@.subrange(n as int, n as int) =~= Seq::<char>::empty());
    put_segment(&mut pairs, seg, Ghost(m));
    pairs
}

} // verus!
