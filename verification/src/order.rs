//! The order of texts by code point, and lists sorted in it.

use vstd::prelude::*;
use vstd::relations;
use crate::text;
use crate::text::chars_of;

verus! {

/// `a` comes before `b`, or is `b`, when texts are ordered by their first
/// different character and a text stands before its extensions.
pub open spec fn lex_le(a: Seq<char>, b: Seq<char>) -> bool
    decreases a.len(),
{
    if a.len() == 0 {
        true
    } else if b.len() == 0 {
        false
    } else if a[0] != b[0] {
        a[0] < b[0]
    } else {
        lex_le(a.drop_first(), b.drop_first())
    }
}

/// The order of texts, as a relation.
pub open spec fn lex() -> spec_fn(Seq<char>, Seq<char>) -> bool {
    |a: Seq<char>, b: Seq<char>| lex_le(a, b)
}

/// Each text comes strictly before all that follow it.
pub open spec fn ascending(s: Seq<Seq<char>>) -> bool {
    forall|i: int, j: int|
        0 <= i < j < s.len() ==> lex_le(#[trigger] s[i], #[trigger] s[j]) && s[i] != s[j]
}

proof fn lemma_lex_reflexive(a: Seq<char>)
    ensures
        lex_le(a, a),
    decreases a.len(),
{
    if a.len() > 0 {
        lemma_lex_reflexive(a.drop_first());
    }
}

proof fn lemma_lex_antisymmetric(a: Seq<char>, b: Seq<char>)
    requires
        lex_le(a, b),
        lex_le(b, a),
    ensures
        a == b,
    decreases a.len(),
{
    if a.len() == 0 {
        assert(b.len() == 0);
        assert(a =~= b);
    } else {
        lemma_lex_antisymmetric(a.drop_first(), b.drop_first());
        assert(a =~= seq![a[0]] + a.drop_first());
        assert(b =~= seq![b[0]] + b.drop_first());
    }
}

proof fn lemma_lex_transitive(a: Seq<char>, b: Seq<char>, c: Seq<char>)
    requires
        lex_le(a, b),
        lex_le(b, c),
    ensures
        lex_le(a, c),
    decreases a.len(),
{
    if a.len() > 0 && a[0] == b[0] && b[0] == c[0] {
        lemma_lex_transitive(a.drop_first(), b.drop_first(), c.drop_first());
    }
}

proof fn lemma_lex_total(a: Seq<char>, b: Seq<char>)
    ensures
        lex_le(a, b) || lex_le(b, a),
    decreases a.len(),
{
    if a.len() > 0 && b.len() > 0 && a[0] == b[0] {
        lemma_lex_total(a.drop_first(), b.drop_first());
    }
}

/// The order of texts is total: any two texts are comparable, and two that come
/// before each other are the same.
pub proof fn law_lex_is_total_order()
    ensures
        relations::total_ordering(lex()),
{
    assert forall|a: Seq<char>| #[trigger] lex()(a, a) by {
        lemma_lex_reflexive(a);
    }
    assert forall|a: Seq<char>, b: Seq<char>| #[trigger]
        lex()(a, b) && #[trigger] lex()(b, a) implies a == b by {
        lemma_lex_antisymmetric(a, b);
    }
    assert forall|a: Seq<char>, b: Seq<char>, c: Seq<char>| #[trigger]
        lex()(a, b) && #[trigger] lex()(b, c) implies lex()(a, c) by {
        lemma_lex_transitive(a, b, c);
    }
    assert forall|a: Seq<char>, b: Seq<char>| #[trigger] lex()(a, b) || #[trigger] lex()(b, a) by {
        lemma_lex_total(a, b);
    }
}

/// Whether `a` comes before `b` or is `b`.
pub fn not_after(a: &str, b: &str) -> (r: bool)
    ensures
        r == lex_le(a@, b@),
{
    let x = chars_of(a);
    let y = chars_of(b);
    chars_not_after(&x, &y)
}

/// Whether the characters `x` come before `y` or are `y`.
pub fn chars_not_after(x: &Vec<char>, y: &Vec<char>) -> (r: bool)
    ensures
        r == lex_le(x@, y@),
{
    let mut i: usize = 0;
    assert(x@.skip(0) =~= x@);
    assert(y@.skip(0) =~= y@);
    while i < x.len() && i < y.len() && x[i] == y[i]
        invariant
            i <= x.len(),
            i <= y.len(),
            lex_le(x@, y@) == lex_le(x@.skip(i as int), y@.skip(i as int)),
        decreases x.len() - i,
    {
        i += 1;
        assert(x@.skip(i - 1).drop_first() =~= x@.skip(i as int));
        assert(y@.skip(i - 1).drop_first() =~= y@.skip(i as int));
    }
    if i == x.len() {
        true
    } else if i == y.len() {
        false
    } else {
        assert(x@.skip(i as int)[0] == x@[i as int]);
        x[i] < y[i]
    }
}

/// Sorting depends only on which texts there are and how often, not on the order
/// in which they come.
pub proof fn law_sort_ignores_order(a: Seq<Seq<char>>, b: Seq<Seq<char>>)
    requires
        a.to_multiset() == b.to_multiset(),
    ensures
        a.sort_by(lex()) == b.sort_by(lex()),
{
    law_lex_is_total_order();
    a.lemma_sort_by_ensures(lex());
    b.lemma_sort_by_ensures(lex());
    vstd::seq_lib::lemma_sorted_unique(a.sort_by(lex()), b.sort_by(lex()), lex());
}

/// Where `x` belongs in the sorted list `v`: after all that are not after it.
fn place(v: &Vec<String>, x: &str) -> (p: usize)
    requires
        relations::sorted_by(text::texts(v@), lex()),
    ensures
        p <= v.len(),
        forall|i: int| 0 <= i < p ==> lex_le(#[trigger] v@[i]@, x@),
        forall|i: int| p <= i < v.len() ==> !lex_le(#[trigger] v@[i]@, x@),
{
    let mut p: usize = v.len();
    while p > 0 && !not_after(v[p - 1].as_str(), x)
        invariant
            p <= v.len(),
            forall|i: int| p <= i < v.len() ==> !lex_le(#[trigger] v@[i]@, x@),
        decreases p,
    {
        p -= 1;
    }
    proof {
        law_lex_is_total_order();
        let t = text::texts(v@);
        assert forall|i: int| 0 <= i < p implies lex_le(#[trigger] v@[i]@, x@) by {
            if i < p - 1 {
                assert(lex()(t[i], t[p - 1]));
                lemma_lex_transitive(v@[i]@, v@[p - 1]@, x@);
            }
        }
    }
    p
}

proof fn lemma_insert_sorted(t: Seq<Seq<char>>, p: int, x: Seq<char>)
    requires
        relations::sorted_by(t, lex()),
        0 <= p <= t.len(),
        forall|i: int| 0 <= i < p ==> lex_le(#[trigger] t[i], x),
        forall|i: int| p <= i < t.len() ==> !lex_le(#[trigger] t[i], x),
    ensures
        relations::sorted_by(t.insert(p, x), lex()),
        t.insert(p, x).to_multiset() == t.to_multiset().insert(x),
{
    broadcast use vstd::seq_lib::group_to_multiset_ensures;

    let r = t.insert(p, x);
    assert forall|i: int, j: int| 0 <= i < j < r.len() implies #[trigger] lex()(r[i], r[j]) by {
        let a = if i < p { i } else { i - 1 };
        let b = if j < p { j } else { j - 1 };
        if i == p {
            assert(r[j] == t[b]);
            lemma_lex_total(t[b], x);
        } else if j == p {
            assert(r[i] == t[a]);
        } else {
            assert(r[i] == t[a] && r[j] == t[b]);
            assert(lex()(t[a], t[b]));
        }
    }
    vstd::seq_lib::to_multiset_insert(t, p, x);
}

/// The strings of `v`, sorted.
pub fn sort_texts(v: &Vec<String>) -> (r: Vec<String>)
    ensures
        text::texts(r@) == text::texts(v@).sort_by(lex()),
{
    let mut out: Vec<String> = Vec::new();
    assert(text::texts(out@).to_multiset() =~= text::texts(v@).take(0).to_multiset()) by {
        assert(text::texts(out@) =~= text::texts(v@).take(0));
    }
    for i in 0..v.len()
        invariant
            relations::sorted_by(text::texts(out@), lex()),
            text::texts(out@).to_multiset() == text::texts(v@).take(i as int).to_multiset(),
    {
        let ghost t = text::texts(out@);
        let p = place(&out, v[i].as_str());
        out.insert(p, v[i].as_str().to_owned());
        proof {
            let x = v@[i as int]@;
            assert forall|k: int| 0 <= k < p implies lex_le(#[trigger] t[k], x) by {}
            assert forall|k: int| p <= k < t.len() implies !lex_le(#[trigger] t[k], x) by {}
            assert(text::texts(out@) =~= t.insert(p as int, x));
            lemma_insert_sorted(t, p as int, x);
            assert(text::texts(v@).take(i + 1) =~= text::texts(v@).take(i as int).push(x));
            vstd::seq_lib::to_multiset_build(text::texts(v@).take(i as int), x);
        }
    }
    proof {
        assert(text::texts(v@).take(v.len() as int) =~= text::texts(v@));
        law_lex_is_total_order();
        text::texts(v@).lemma_sort_by_ensures(lex());
        vstd::seq_lib::lemma_sorted_unique(
            text::texts(out@),
            text::texts(v@).sort_by(lex()),
            lex(),
        );
    }
    out
}

/// The strings of `v` in ascending order, each once.
pub fn sorted_set(v: &Vec<String>) -> (r: Vec<String>)
    ensures
        ascending(text::texts(r@)),
        text::texts(r@).to_set() == text::texts(v@).to_set(),
{
    let mut out: Vec<String> = Vec::new();
    assert(text::texts(out@).to_set() =~= text::texts(v@).take(0).to_set());
    for i in 0..v.len()
        invariant
            ascending(text::texts(out@)),
            text::texts(out@).to_set() == text::texts(v@).take(i as int).to_set(),
    {
        let ghost t = text::texts(out@);
        let ghost x = v@[i as int]@;
        let ghost seen = text::texts(v@).take(i as int);
        let ghost next = text::texts(v@).take(i + 1);
        assert(relations::sorted_by(t, lex()));
        let p = place(&out, v[i].as_str());
        assert(next =~= seen.push(x));
        assert(next.to_set() =~= seen.to_set().insert(x)) by {
            assert forall|z: Seq<char>| next.to_set().contains(z) == seen.to_set().insert(
                x,
            ).contains(z) by {
                if seen.contains(z) {
                    let k = choose|k: int| 0 <= k < seen.len() && seen[k] == z;
                    assert(next[k] == z);
                }
                assert(next[i as int] == x);
            }
        }
        if p > 0 && text::same(out[p - 1].as_str(), v[i].as_str()) {
            assert(t[p - 1] == x);
            assert(t.to_set().contains(x));
            assert(t.to_set() =~= next.to_set());
        } else {
            out.insert(p, v[i].as_str().to_owned());
            proof {
                let r = t.insert(p as int, x);
                assert(text::texts(out@) =~= r);
                assert forall|a: int, b: int| 0 <= a < b < r.len() implies lex_le(
                    #[trigger] r[a],
                    #[trigger] r[b],
                ) && r[a] != r[b] by {
                    let c = if a < p { a } else { a - 1 };
                    let d = if b < p { b } else { b - 1 };
                    if a == p {
                        assert(r[b] == t[d]);
                        assert(!lex_le(out@[b]@, x));
                        lemma_lex_total(t[d], x);
                        lemma_lex_reflexive(x);
                    } else if b == p {
                        assert(r[a] == t[c]);
                        if r[a] == x && c < p - 1 {
                            assert(lex_le(t[c], t[p - 1]) && t[c] != t[p - 1]);
                            lemma_lex_antisymmetric(x, t[p - 1]);
                        }
                    } else {
                        assert(r[a] == t[c] && r[b] == t[d]);
                    }
                }
                assert(r.to_set() =~= next.to_set()) by {
                    assert forall|z: Seq<char>| r.to_set().contains(z) == t.to_set().insert(
                        x,
                    ).contains(z) by {
                        if t.contains(z) {
                            let k = choose|k: int| 0 <= k < t.len() && t[k] == z;
                            assert(r[if k < p { k } else { k + 1 }] == z);
                        }
                        if r.contains(z) && z != x {
                            let k = choose|k: int| 0 <= k < r.len() && r[k] == z;
                            assert(t[if k < p { k } else { k - 1 }] == z);
                        }
                        assert(r[p as int] == x);
                    }
                }
            }
        }
    }
    assert(text::texts(v@).take(v.len() as int) =~= text::texts(v@));
    out
}

// ---------------------------------------------------------------------------
// Sorting by a key

/// Positions in a list in the order of their keys, and of themselves where the keys
/// are the same.
pub open spec fn by_key(keys: Seq<Seq<char>>) -> spec_fn(int, int) -> bool {
    |i: int, j: int| lex_le(keys[i], keys[j]) && (keys[i] == keys[j] ==> i <= j)
}

/// The positions of a list whose items have these keys, in the order in which the
/// items stand once they are sorted: by key, and as before where the keys are the
/// same.
pub open spec fn stable_order(keys: Seq<Seq<char>>) -> Seq<int> {
    Seq::new(keys.len(), |i: int| i).sort_by(by_key(keys))
}

/// Positions as mathematical integers.
pub open spec fn ints(v: Seq<usize>) -> Seq<int> {
    Seq::new(v.len(), |i: int| v[i] as int)
}

/// Positions are totally ordered by their keys and themselves.
pub proof fn law_order_by_key_is_total(keys: Seq<Seq<char>>)
    ensures
        relations::total_ordering(by_key(keys)),
{
    let r = by_key(keys);
    assert forall|a: int| #[trigger] r(a, a) by {
        lemma_lex_reflexive(keys[a]);
    }
    assert forall|a: int, b: int| #[trigger] r(a, b) && #[trigger] r(b, a) implies a == b by {
        lemma_lex_antisymmetric(keys[a], keys[b]);
    }
    assert forall|a: int, b: int, c: int| #[trigger] r(a, b) && #[trigger] r(b, c) implies r(
        a,
        c,
    ) by {
        lemma_lex_transitive(keys[a], keys[b], keys[c]);
        if keys[a] == keys[c] {
            lemma_lex_antisymmetric(keys[a], keys[b]);
        }
    }
    assert forall|a: int, b: int| #[trigger] r(a, b) || #[trigger] r(b, a) by {
        lemma_lex_total(keys[a], keys[b]);
        if keys[a] == keys[b] {
            lemma_lex_reflexive(keys[a]);
        }
    }
}

/// The sorted order holds every position once, and items with the same key stay as
/// they were.
pub proof fn law_sorting_by_key_is_stable(keys: Seq<Seq<char>>)
    ensures
        stable_order(keys).to_multiset() == Seq::new(keys.len(), |i: int| i).to_multiset(),
        stable_order(keys).len() == keys.len(),
        forall|i: int, j: int|
            0 <= i < j < keys.len() ==> lex_le(
                keys[#[trigger] stable_order(keys)[i]],
                keys[#[trigger] stable_order(keys)[j]],
            ) && (keys[stable_order(keys)[i]] == keys[stable_order(keys)[j]]
                ==> stable_order(keys)[i] <= stable_order(keys)[j]),
{
    let all = Seq::new(keys.len(), |i: int| i);
    law_order_by_key_is_total(keys);
    all.lemma_sort_by_ensures(by_key(keys));
    assert(all.to_multiset().len() == all.len()) by {
        broadcast use vstd::seq_lib::group_to_multiset_ensures;

    }
    assert(stable_order(keys).to_multiset().len() == stable_order(keys).len()) by {
        broadcast use vstd::seq_lib::group_to_multiset_ensures;

    }
    assert forall|i: int, j: int| 0 <= i < j < keys.len() implies lex_le(
        keys[#[trigger] stable_order(keys)[i]],
        keys[#[trigger] stable_order(keys)[j]],
    ) && (keys[stable_order(keys)[i]] == keys[stable_order(keys)[j]] ==> stable_order(keys)[i]
        <= stable_order(keys)[j]) by {
        assert(by_key(keys)(stable_order(keys)[i], stable_order(keys)[j]));
    }
}

/// Lists of the same items give lists of the same images.
pub(crate) proof fn lemma_map_keeps_multiset<A, B>(a: Seq<A>, b: Seq<A>, f: spec_fn(A) -> B)
    requires
        a.to_multiset() == b.to_multiset(),
    ensures
        a.map_values(f).to_multiset() == b.map_values(f).to_multiset(),
    decreases a.len(),
{
    broadcast use vstd::seq_lib::group_to_multiset_ensures;

    assert(a.to_multiset().len() == a.len());
    assert(b.to_multiset().len() == b.len());
    if a.len() == 0 {
        assert(a.map_values(f) =~= b.map_values(f));
    } else {
        let x = a.last();
        assert(a.contains(x));
        assert(b.to_multiset().count(x) > 0);
        let j = choose|j: int| 0 <= j < b.len() && b[j] == x;
        let c = a.drop_last();
        let d = b.remove(j);
        assert(a =~= c.push(x));
        assert(b =~= d.insert(j, x));
        vstd::seq_lib::to_multiset_build(c, x);
        vstd::seq_lib::to_multiset_insert(d, j, x);
        assert(c.to_multiset() =~= d.to_multiset()) by {
            assert forall|z: A| c.to_multiset().count(z) == d.to_multiset().count(z) by {
                assert(c.to_multiset().insert(x).count(z) == d.to_multiset().insert(x).count(z));
            }
        }
        lemma_map_keeps_multiset(c, d, f);
        assert(a.map_values(f) =~= c.map_values(f).push(f(x)));
        assert(b.map_values(f) =~= d.map_values(f).insert(j, f(x)));
        vstd::seq_lib::to_multiset_build(c.map_values(f), f(x));
        vstd::seq_lib::to_multiset_insert(d.map_values(f), j, f(x));
    }
}

proof fn lemma_insert_position(t: Seq<int>, p: int, x: int, r: spec_fn(int, int) -> bool)
    requires
        relations::total_ordering(r),
        relations::sorted_by(t, r),
        0 <= p <= t.len(),
        forall|i: int| 0 <= i < p ==> r(#[trigger] t[i], x),
        forall|i: int| p <= i < t.len() ==> r(x, #[trigger] t[i]),
    ensures
        relations::sorted_by(t.insert(p, x), r),
        t.insert(p, x).to_multiset() == t.to_multiset().insert(x),
{
    let u = t.insert(p, x);
    assert forall|i: int, j: int| 0 <= i < j < u.len() implies #[trigger] r(u[i], u[j]) by {
        let a = if i < p { i } else { i - 1 };
        let b = if j < p { j } else { j - 1 };
        if i == p {
            assert(u[j] == t[b]);
        } else if j == p {
            assert(u[i] == t[a]);
        } else {
            assert(u[i] == t[a] && u[j] == t[b]);
            assert(r(t[a], t[b]));
        }
    }
    vstd::seq_lib::to_multiset_insert(t, p, x);
}

/// Where the item at position `i` belongs among the sorted positions `out` before it.
fn place_by_key(keys: &Vec<Vec<char>>, out: &Vec<usize>, i: usize) -> (p: usize)
    requires
        i < keys.len(),
        relations::sorted_by(ints(out@), by_key(text::char_texts(keys@))),
        forall|k: int| 0 <= k < out.len() ==> #[trigger] out@[k] < i,
    ensures
        p <= out.len(),
        forall|k: int|
            0 <= k < p ==> by_key(text::char_texts(keys@))(#[trigger] ints(out@)[k], i as int),
        forall|k: int|
            p <= k < out.len() ==> by_key(text::char_texts(keys@))(
                i as int,
                #[trigger] ints(out@)[k],
            ),
{
    let ghost ks = text::char_texts(keys@);
    let ghost r = by_key(ks);
    let ghost t = ints(out@);
    let mut p: usize = out.len();
    while p > 0
        invariant_except_break
            p <= out.len(),
            i < keys.len(),
            ks == text::char_texts(keys@),
            r == by_key(ks),
            t == ints(out@),
            forall|k: int| 0 <= k < out.len() ==> #[trigger] out@[k] < i,
            forall|k: int| p <= k < out.len() ==> r(i as int, #[trigger] t[k]),
        ensures
            p <= out.len(),
            forall|k: int| p <= k < out.len() ==> r(i as int, #[trigger] t[k]),
            p > 0 ==> r(t[p - 1], i as int),
        decreases p,
    {
        assert(t[p - 1] == out@[p - 1]);
        assert(ks[i as int] == keys@[i as int]@);
        assert(out@[p - 1] < i);
        assert(ks[t[p - 1]] == keys@[t[p - 1]]@);
        if chars_not_after(&keys[out[p - 1]], &keys[i]) {
            break;
        }
        proof {
            lemma_lex_total(ks[t[p - 1]], ks[i as int]);
            lemma_lex_reflexive(ks[i as int]);
        }
        p -= 1;
    }
    proof {
        law_order_by_key_is_total(ks);
        assert forall|k: int| 0 <= k < p implies r(#[trigger] t[k], i as int) by {
            if k < p - 1 {
                assert(r(t[k], t[p - 1]));
            }
        }
    }
    p
}

/// The positions of the items in the order of their keys; items with the same key
/// stay as they were.
pub fn stable_positions(keys: &Vec<Vec<char>>) -> (r: Vec<usize>)
    ensures
        ints(r@) == stable_order(text::char_texts(keys@)),
        r.len() == keys.len(),
        forall|i: int| 0 <= i < r.len() ==> #[trigger] r@[i] < keys.len(),
{
    let ghost ks = text::char_texts(keys@);
    let ghost all = Seq::new(ks.len(), |i: int| i);
    let mut out: Vec<usize> = Vec::new();
    proof {
        law_order_by_key_is_total(ks);
        assert(ints(out@) =~= all.take(0));
    }
    for i in 0..keys.len()
        invariant
            ks == text::char_texts(keys@),
            all == Seq::new(ks.len(), |i: int| i),
            relations::total_ordering(by_key(ks)),
            relations::sorted_by(ints(out@), by_key(ks)),
            ints(out@).to_multiset() == all.take(i as int).to_multiset(),
            out.len() == i,
            forall|k: int| 0 <= k < out.len() ==> #[trigger] out@[k] < i,
    {
        let ghost t = ints(out@);
        let p = place_by_key(keys, &out, i);
        out.insert(p, i);
        proof {
            assert(ints(out@) =~= t.insert(p as int, i as int));
            lemma_insert_position(t, p as int, i as int, by_key(ks));
            assert(all.take(i + 1) =~= all.take(i as int).push(i as int));
            vstd::seq_lib::to_multiset_build(all.take(i as int), i as int);
        }
    }
    proof {
        assert(all.take(keys.len() as int) =~= all);
        all.lemma_sort_by_ensures(by_key(ks));
        vstd::seq_lib::lemma_sorted_unique(ints(out@), all.sort_by(by_key(ks)), by_key(ks));
    }
    out
}

/// The first difference decides between two texts, and a text comes before those that
/// go on behind it.
pub proof fn law_first_difference_decides(
    p: Seq<char>,
    a: char,
    b: char,
    x: Seq<char>,
    y: Seq<char>,
)
    ensures
        a < b ==> lex_le(p + seq![a] + x, p + seq![b] + y),
        a < b ==> !lex_le(p + seq![b] + y, p + seq![a] + x),
        lex_le(p, p + x),
        x.len() > 0 ==> !lex_le(p + x, p),
    decreases p.len(),
{
    let s = p + seq![a] + x;
    let t = p + seq![b] + y;
    if p.len() > 0 {
        let q = p.drop_first();
        law_first_difference_decides(q, a, b, x, y);
        assert(s.drop_first() =~= q + seq![a] + x);
        assert(t.drop_first() =~= q + seq![b] + y);
        assert((p + x).drop_first() =~= q + x);
        assert(s[0] == p[0] && t[0] == p[0] && (p + x)[0] == p[0]);
    } else {
        assert(s[0] == a && t[0] == b);
        assert(p + x =~= x);
    }
}

} // verus!
