//! A deduplicated store of keyed items with derived orderings.
//!
//! Items carry a primary key; the store keeps at most one item per primary
//! key, holds its items sorted by that key, and can project a freshly
//! materialized sequence sorted by an arbitrary derived key, ties broken by
//! the primary key.
use vstd::prelude::*;

use crate::collection::Length;
use crate::order::key_le;
use crate::order::key_lt;
use crate::order::lemma_key_le_antisym;
use crate::order::lemma_key_le_total;
use crate::order::lemma_key_le_trans;
use crate::order::lemma_pair_le_antisym;
use crate::order::lemma_pair_le_total;
use crate::order::lemma_pair_le_trans;
use crate::order::pair_le;
use crate::order::SortKey;
use crate::order::SortKeyV;
use vstd::seq_lib::lemma_multiset_commutative;

verus! {

/// An item that a store can hold: it abstracts to a mathematical view and
/// names a primary key of that view.
pub trait Keyed: View + Sized {
    /// Primary key of an item's view; it governs deduplication and the
    /// store's own iteration order.
    spec fn pkey(v: Self::V) -> SortKeyV;

    /// Executable primary key.
    fn primary_key(&self) -> (k: SortKey)
        ensures
            k@ == Self::pkey(self@),
    ;

    /// A copy with the same view.
    fn dup(&self) -> (r: Self)
        ensures
            r@ == self@,
    ;
}

/// A selector that derives an ordering key from an item.
pub trait KeyFn<T: View>: Sized {
    /// Derived key of an item's view.
    spec fn dkey(v: T::V) -> SortKeyV;

    /// Executable derived key.
    fn derived_key(&self, t: &T) -> (k: SortKey)
        ensures
            k@ == Self::dkey(t@),
    ;
}

/// What `insert` does to the store's contents: a no-op when the primary key
/// is already present, otherwise placement at the sorted position.
pub open spec fn spec_store_insert<V>(s: Seq<V>, v: V, pkey: spec_fn(V) -> SortKeyV) -> Seq<V>
    decreases s.len(),
{
    if s.len() == 0 {
        seq![v]
    } else if key_lt(pkey(v), pkey(s[0])) {
        seq![v] + s
    } else if pkey(v) == pkey(s[0]) {
        s
    } else {
        seq![s[0]] + spec_store_insert(s.drop_first(), v, pkey)
    }
}

/// What `extend` does to the store's contents: the items inserted in order.
pub open spec fn spec_store_extend<V>(s: Seq<V>, xs: Seq<V>, pkey: spec_fn(V) -> SortKeyV) -> Seq<
    V,
>
    decreases xs.len(),
{
    if xs.len() == 0 {
        s
    } else {
        spec_store_insert(spec_store_extend(s, xs.drop_last(), pkey), xs.last(), pkey)
    }
}

/// The contents are strictly sorted by primary key (so keys are unique).
pub open spec fn sorted_strict<V>(s: Seq<V>, pkey: spec_fn(V) -> SortKeyV) -> bool {
    forall|i: int, j: int|
        0 <= i < j < s.len() ==> key_lt(pkey(#[trigger] s[i]), pkey(#[trigger] s[j]))
}

/// Some item of `s` has primary key `k`.
pub open spec fn has_pkey<V>(s: Seq<V>, k: SortKeyV, pkey: spec_fn(V) -> SortKeyV) -> bool {
    exists|i: int| 0 <= i < s.len() && pkey(#[trigger] s[i]) == k
}

/// Order on items by (derived key, primary key).
pub open spec fn by_pair<V>(dkey: spec_fn(V) -> SortKeyV, pkey: spec_fn(V) -> SortKeyV) -> spec_fn(
    V,
    V,
) -> bool {
    |a: V, b: V| pair_le((dkey(a), pkey(a)), (dkey(b), pkey(b)))
}

/// Strict order on (derived, primary) key pairs.
pub open spec fn pair_lt(a: (SortKeyV, SortKeyV), b: (SortKeyV, SortKeyV)) -> bool {
    pair_le(a, b) && a != b
}

/// What fails a strict comparison satisfies the reverse weak one.
proof fn lemma_key_not_lt(a: SortKeyV, b: SortKeyV)
    requires
        !key_lt(a, b),
    ensures
        key_le(b, a),
{
    lemma_key_le_total(a, b);
    if a == b {
        lemma_key_le_total(a, a);
    }
}

/// What fails a strict pair comparison satisfies the reverse weak one.
proof fn lemma_pair_not_lt(a: (SortKeyV, SortKeyV), b: (SortKeyV, SortKeyV))
    requires
        !pair_lt(a, b),
    ensures
        pair_le(b, a),
{
    lemma_pair_le_total(a, b);
    if a == b {
        lemma_pair_le_total(a, a);
    }
}

/// Positional description of `spec_store_insert`: scanning for the first
/// position whose key is not below the new key either finds the key itself
/// (no-op) or the insertion point.
proof fn lemma_insert_at<V>(s: Seq<V>, v: V, pkey: spec_fn(V) -> SortKeyV, p: int)
    requires
        0 <= p <= s.len(),
        forall|k: int| 0 <= k < p ==> key_lt(pkey(#[trigger] s[k]), pkey(v)),
        p < s.len() ==> !key_lt(pkey(s[p]), pkey(v)),
    ensures
        p < s.len() && pkey(s[p]) == pkey(v) ==> spec_store_insert(s, v, pkey) == s,
        !(p < s.len() && pkey(s[p]) == pkey(v)) ==> spec_store_insert(s, v, pkey) == s.insert(
            p,
            v,
        ),
    decreases s.len(),
{
    if s.len() == 0 {
        assert(spec_store_insert(s, v, pkey) =~= s.insert(0, v));
    } else if p == 0 {
        if pkey(s[0]) == pkey(v) {
            // the no-op case of the recursion
            assert(!key_lt(pkey(v), pkey(s[0])));
        } else {
            // neither s[0] < v nor equal keys, so v < s[0]
            lemma_key_not_lt(pkey(s[0]), pkey(v));
            assert(key_lt(pkey(v), pkey(s[0])));
            assert(seq![v] + s =~= s.insert(0, v));
        }
    } else {
        // s[0] < v, so the recursion steps past s[0]
        assert(key_lt(pkey(s[0]), pkey(v)));
        if key_lt(pkey(v), pkey(s[0])) {
            lemma_key_le_antisym(pkey(v), pkey(s[0]));
            assert(false);
        }
        assert(pkey(v) != pkey(s[0]));
        let t = s.drop_first();
        assert(forall|k: int| 0 <= k < p - 1 ==> key_lt(pkey(#[trigger] t[k]), pkey(v))) by {
            assert(forall|k: int| 0 <= k < p - 1 ==> #[trigger] t[k] == s[k + 1]);
        }
        lemma_insert_at(t, v, pkey, p - 1);
        if p < s.len() && pkey(s[p]) == pkey(v) {
            assert(t[p - 1] == s[p]);
            assert(spec_store_insert(t, v, pkey) == t);
            assert(seq![s[0]] + t =~= s);
        } else {
            assert(spec_store_insert(t, v, pkey) == t.insert(p - 1, v));
            assert(seq![s[0]] + t.insert(p - 1, v) =~= s.insert(p, v));
        }
    }
}

/// Inserting keeps the contents strictly sorted, adds the item exactly when
/// its key was absent, and otherwise changes nothing.
pub proof fn lemma_insert_props<V>(s: Seq<V>, v: V, pkey: spec_fn(V) -> SortKeyV, p: int)
    requires
        sorted_strict(s, pkey),
        0 <= p <= s.len(),
        forall|k: int| 0 <= k < p ==> key_lt(pkey(#[trigger] s[k]), pkey(v)),
        p < s.len() ==> !key_lt(pkey(s[p]), pkey(v)),
    ensures
        sorted_strict(spec_store_insert(s, v, pkey), pkey),
        p < s.len() && pkey(s[p]) == pkey(v) ==> has_pkey(s, pkey(v), pkey) && spec_store_insert(
            s,
            v,
            pkey,
        ) == s,
        !(p < s.len() && pkey(s[p]) == pkey(v)) ==> !has_pkey(s, pkey(v), pkey)
            && spec_store_insert(s, v, pkey) == s.insert(p, v) && spec_store_insert(
            s,
            v,
            pkey,
        ).to_multiset() == s.to_multiset().insert(v),
{
    lemma_insert_at(s, v, pkey, p);
    if p < s.len() && pkey(s[p]) == pkey(v) {
        assert(has_pkey(s, pkey(v), pkey));
    } else {
        // the key is absent: below p keys are strictly smaller, at and above p
        // they are strictly larger
        assert forall|k: int| p <= k < s.len() implies key_lt(pkey(v), pkey(#[trigger] s[k])) by {
            lemma_key_not_lt(pkey(s[p]), pkey(v));
            assert(key_le(pkey(v), pkey(s[p])));
            assert(pkey(s[p]) != pkey(v));
            assert(key_lt(pkey(v), pkey(s[p])));
            if k > p {
                assert(key_lt(pkey(s[p]), pkey(s[k])));
                lemma_key_le_trans(pkey(v), pkey(s[p]), pkey(s[k]));
                if pkey(v) == pkey(s[k]) {
                    lemma_key_le_antisym(pkey(v), pkey(s[p]));
                    assert(false);
                }
            }
        }
        assert(!has_pkey(s, pkey(v), pkey)) by {
            if has_pkey(s, pkey(v), pkey) {
                let i = choose|i: int| 0 <= i < s.len() && pkey(#[trigger] s[i]) == pkey(v);
                assert(key_lt(pkey(s[i]), pkey(v)) || key_lt(pkey(v), pkey(s[i])));
            }
        }
        let r = s.insert(p, v);
        assert(sorted_strict(r, pkey)) by {
            s.insert_ensures(p, v);
            assert forall|i: int, j: int| 0 <= i < j < r.len() implies key_lt(
                pkey(#[trigger] r[i]),
                pkey(#[trigger] r[j]),
            ) by {
                if j < p {
                    assert(r[i] == s[i] && r[j] == s[j]);
                } else if i > p {
                    assert(r[i] == s[i - 1] && r[j] == s[j - 1]);
                } else if i == p {
                    assert(r[i] == v && r[j] == s[j - 1]);
                } else if j == p {
                    assert(r[i] == s[i] && r[j] == v);
                } else {
                    assert(r[i] == s[i] && r[j] == s[j - 1]);
                }
            }
        }
        assert(r.to_multiset() == s.to_multiset().insert(v)) by {
            assert(r == s.take(p).push(v) + s.skip(p));
            lemma_multiset_commutative(s.take(p).push(v), s.skip(p));
            lemma_multiset_commutative(s.take(p), s.skip(p));
            assert(s.take(p) + s.skip(p) =~= s);
            broadcast use vstd::seq_lib::group_to_multiset_ensures;

            assert(s.take(p).push(v).to_multiset() =~= s.take(p).to_multiset().insert(v));
            assert(r.to_multiset() =~= s.to_multiset().insert(v));
        }
    }
}

/// The items of `xs` have pairwise distinct primary keys.
pub open spec fn distinct_pkeys<V>(xs: Seq<V>, pkey: spec_fn(V) -> SortKeyV) -> bool {
    forall|i: int, j: int|
        0 <= i < j < xs.len() ==> pkey(#[trigger] xs[i]) != pkey(#[trigger] xs[j])
}

/// The sorted position of a new key in strictly sorted contents.
proof fn lemma_find_pos<V>(s: Seq<V>, v: V, pkey: spec_fn(V) -> SortKeyV) -> (p: int)
    requires
        sorted_strict(s, pkey),
    ensures
        0 <= p <= s.len(),
        forall|k: int| 0 <= k < p ==> key_lt(pkey(#[trigger] s[k]), pkey(v)),
        p < s.len() ==> !key_lt(pkey(s[p]), pkey(v)),
    decreases s.len(),
{
    if s.len() == 0 {
        0
    } else if key_lt(pkey(s[0]), pkey(v)) {
        let t = s.drop_first();
        assert(sorted_strict(t, pkey)) by {
            assert(forall|k: int| 0 <= k < t.len() ==> #[trigger] t[k] == s[k + 1]);
        }
        let q = lemma_find_pos(t, v, pkey);
        assert(forall|k: int| 1 <= k < q + 1 ==> #[trigger] s[k] == t[k - 1]);
        q + 1
    } else {
        0
    }
}

/// `spec_store_insert` without a position: it keeps the contents strictly
/// sorted; when the key is fresh it adds exactly the item, and the keys of
/// the result are the old keys plus the new one.
pub proof fn lemma_spec_insert<V>(s: Seq<V>, v: V, pkey: spec_fn(V) -> SortKeyV)
    requires
        sorted_strict(s, pkey),
    ensures
        sorted_strict(spec_store_insert(s, v, pkey), pkey),
        has_pkey(s, pkey(v), pkey) ==> spec_store_insert(s, v, pkey) == s,
        !has_pkey(s, pkey(v), pkey) ==> spec_store_insert(s, v, pkey).to_multiset()
            == s.to_multiset().insert(v),
        forall|k: SortKeyV|
            has_pkey(spec_store_insert(s, v, pkey), k, pkey) <==> (has_pkey(s, k, pkey) || k
                == pkey(v)),
{
    let p = lemma_find_pos(s, v, pkey);
    lemma_insert_props(s, v, pkey, p);
    let r = spec_store_insert(s, v, pkey);
    if p < s.len() && pkey(s[p]) == pkey(v) {
        assert forall|k: SortKeyV| has_pkey(r, k, pkey) <==> (has_pkey(s, k, pkey) || k == pkey(
            v,
        )) by {
            if k == pkey(v) {
                assert(has_pkey(s, k, pkey));
            }
        }
    } else {
        assert(r == s.insert(p, v));
        s.insert_ensures(p, v);
        assert forall|k: SortKeyV| has_pkey(r, k, pkey) <==> (has_pkey(s, k, pkey) || k == pkey(
            v,
        )) by {
            if has_pkey(r, k, pkey) {
                let i = choose|i: int| 0 <= i < r.len() && pkey(#[trigger] r[i]) == k;
                if i < p {
                    assert(r[i] == s[i]);
                    assert(has_pkey(s, k, pkey));
                } else if i == p {
                    assert(r[i] == v);
                } else {
                    assert(r[i] == s[i - 1]);
                    assert(has_pkey(s, k, pkey));
                }
            }
            if has_pkey(s, k, pkey) {
                let i = choose|i: int| 0 <= i < s.len() && pkey(#[trigger] s[i]) == k;
                if i < p {
                    assert(r[i] == s[i]);
                } else {
                    assert(r[i + 1] == s[i]);
                }
                assert(has_pkey(r, k, pkey));
            }
            if k == pkey(v) {
                assert(r[p] == v);
                assert(has_pkey(r, k, pkey));
            }
        }
    }
}

/// `spec_store_extend` keeps the contents strictly sorted; a batch of fresh,
/// pairwise distinct keys is added exactly, and the keys of the result are
/// the old keys plus the batch's.
pub proof fn lemma_spec_extend<V>(s: Seq<V>, xs: Seq<V>, pkey: spec_fn(V) -> SortKeyV)
    requires
        sorted_strict(s, pkey),
    ensures
        sorted_strict(spec_store_extend(s, xs, pkey), pkey),
        forall|k: SortKeyV|
            has_pkey(spec_store_extend(s, xs, pkey), k, pkey) <==> (has_pkey(s, k, pkey)
                || has_pkey(xs, k, pkey)),
        (distinct_pkeys(xs, pkey) && (forall|i: int|
            0 <= i < xs.len() ==> !has_pkey(s, pkey(#[trigger] xs[i]), pkey)))
            ==> spec_store_extend(s, xs, pkey).to_multiset() == s.to_multiset().add(
            xs.to_multiset(),
        ),
    decreases xs.len(),
{
    broadcast use vstd::seq_lib::group_to_multiset_ensures;
    broadcast use vstd::multiset::group_multiset_axioms;

    if xs.len() == 0 {
        assert forall|k: SortKeyV| !has_pkey(xs, k, pkey) by {}
        assert(s.to_multiset().add(xs.to_multiset()) =~= s.to_multiset());
    } else {
        let prefix = xs.drop_last();
        let last = xs.last();
        lemma_spec_extend(s, prefix, pkey);
        let mid = spec_store_extend(s, prefix, pkey);
        lemma_spec_insert(mid, last, pkey);
        assert forall|k: SortKeyV| has_pkey(xs, k, pkey) <==> (has_pkey(prefix, k, pkey) || k
            == pkey(last)) by {
            if has_pkey(xs, k, pkey) {
                let i = choose|i: int| 0 <= i < xs.len() && pkey(#[trigger] xs[i]) == k;
                if i < xs.len() - 1 {
                    assert(prefix[i] == xs[i]);
                    assert(has_pkey(prefix, k, pkey));
                }
            }
            if has_pkey(prefix, k, pkey) {
                let i = choose|i: int| 0 <= i < prefix.len() && pkey(#[trigger] prefix[i]) == k;
                assert(xs[i] == prefix[i]);
                assert(has_pkey(xs, k, pkey));
            }
            if k == pkey(last) {
                assert(pkey(xs[xs.len() - 1]) == k);
                assert(has_pkey(xs, k, pkey));
            }
        }
        if distinct_pkeys(xs, pkey) && (forall|i: int|
            0 <= i < xs.len() ==> !has_pkey(s, pkey(#[trigger] xs[i]), pkey)) {
            assert(distinct_pkeys(prefix, pkey)) by {
                assert(forall|i: int| 0 <= i < prefix.len() ==> #[trigger] prefix[i] == xs[i]);
            }
            assert(forall|i: int|
                0 <= i < prefix.len() ==> !has_pkey(s, pkey(#[trigger] prefix[i]), pkey)) by {
                assert(forall|i: int| 0 <= i < prefix.len() ==> #[trigger] prefix[i] == xs[i]);
            }
            assert(!has_pkey(mid, pkey(last), pkey)) by {
                assert(pkey(xs[xs.len() - 1]) == pkey(last));
                assert(!has_pkey(s, pkey(last), pkey));
                if has_pkey(prefix, pkey(last), pkey) {
                    let i = choose|i: int|
                        0 <= i < prefix.len() && pkey(#[trigger] prefix[i]) == pkey(last);
                    assert(pkey(xs[i]) == pkey(xs[xs.len() - 1]));
                    assert(false);
                }
            }
            assert(mid.to_multiset() == s.to_multiset().add(prefix.to_multiset()));
            assert(spec_store_extend(s, xs, pkey).to_multiset() == mid.to_multiset().insert(last));
            assert(xs =~= prefix.push(last));
            assert(xs.to_multiset() =~= prefix.to_multiset().insert(last));
            assert(s.to_multiset().add(prefix.to_multiset()).insert(last) =~= s.to_multiset().add(
                prefix.to_multiset().insert(last),
            ));
        }
    }
}

/// Two strictly sorted sequences with the same items are the same sequence.
pub proof fn lemma_strict_sorted_unique<V>(x: Seq<V>, y: Seq<V>, pkey: spec_fn(V) -> SortKeyV)
    requires
        sorted_strict(x, pkey),
        sorted_strict(y, pkey),
        x.to_multiset() == y.to_multiset(),
    ensures
        x == y,
    decreases x.len(),
{
    broadcast use vstd::seq_lib::group_to_multiset_ensures;
    broadcast use vstd::multiset::group_multiset_axioms;

    if x.len() == 0 {
        assert(y.to_multiset().len() == 0);
        assert(x =~= y);
    } else {
        assert(x.to_multiset().len() == x.len());
        assert(y.to_multiset().len() == y.len());
        assert(y.len() == x.len());
        // the two heads are equal: each occurs in the other sequence, and a
        // strictly later occurrence would contradict antisymmetry
        assert(x.contains(x[0]));
        assert(y.to_multiset().count(x[0]) > 0);
        assert(y.contains(x[0]));
        let j = choose|j: int| 0 <= j < y.len() && y[j] == x[0];
        assert(x.to_multiset().count(y[0]) > 0) by {
            assert(y.contains(y[0]));
        }
        assert(x.contains(y[0]));
        let i = choose|i: int| 0 <= i < x.len() && x[i] == y[0];
        if x[0] != y[0] {
            assert(j != 0 && i != 0);
            assert(key_lt(pkey(y[0]), pkey(y[j])));
            assert(key_lt(pkey(x[0]), pkey(x[i])));
            lemma_key_le_antisym(pkey(x[0]), pkey(y[0]));
            assert(false);
        }
        assert(x.drop_first().to_multiset() =~= x.to_multiset().remove(x[0])) by {
            assert(x.remove(0) =~= x.drop_first());
        }
        assert(y.drop_first().to_multiset() =~= y.to_multiset().remove(y[0])) by {
            assert(y.remove(0) =~= y.drop_first());
        }
        assert(sorted_strict(x.drop_first(), pkey)) by {
            assert(forall|k: int|
                0 <= k < x.len() - 1 ==> #[trigger] x.drop_first()[k] == x[k + 1]);
        }
        assert(sorted_strict(y.drop_first(), pkey)) by {
            assert(forall|k: int|
                0 <= k < y.len() - 1 ==> #[trigger] y.drop_first()[k] == y[k + 1]);
        }
        lemma_strict_sorted_unique(x.drop_first(), y.drop_first(), pkey);
        assert(forall|k: int|
            1 <= k < x.len() ==> #[trigger] x[k] == x.drop_first()[k - 1] && #[trigger] y[k]
                == y.drop_first()[k - 1]);
        assert(x =~= y);
    }
}

/// Law: a batch of items with pairwise distinct primary keys fills an empty
/// store to the same contents in every insertion order.
pub proof fn lemma_store_order_independent<V>(
    xs: Seq<V>,
    ys: Seq<V>,
    pkey: spec_fn(V) -> SortKeyV,
)
    requires
        distinct_pkeys(xs, pkey),
        distinct_pkeys(ys, pkey),
        xs.to_multiset() == ys.to_multiset(),
    ensures
        spec_store_extend(Seq::<V>::empty(), xs, pkey) == spec_store_extend(
            Seq::<V>::empty(),
            ys,
            pkey,
        ),
{
    broadcast use vstd::multiset::group_multiset_axioms;

    let e = Seq::<V>::empty();
    lemma_spec_extend(e, xs, pkey);
    lemma_spec_extend(e, ys, pkey);
    assert(e.to_multiset().add(xs.to_multiset()) =~= xs.to_multiset()) by {
        broadcast use vstd::seq_lib::group_to_multiset_ensures;

    }
    assert(e.to_multiset().add(ys.to_multiset()) =~= ys.to_multiset()) by {
        broadcast use vstd::seq_lib::group_to_multiset_ensures;

    }
    lemma_strict_sorted_unique(
        spec_store_extend(e, xs, pkey),
        spec_store_extend(e, ys, pkey),
        pkey,
    );
}

/// Distinct primary keys carry over to any sequence with the same items.
pub proof fn lemma_distinct_pkeys_multiset<V>(x: Seq<V>, y: Seq<V>, pkey: spec_fn(V) -> SortKeyV)
    requires
        x.to_multiset() == y.to_multiset(),
        distinct_pkeys(x, pkey),
    ensures
        distinct_pkeys(y, pkey),
{
    broadcast use vstd::seq_lib::group_to_multiset_ensures;
    broadcast use vstd::multiset::group_multiset_axioms;

    assert(x.no_duplicates()) by {
        assert forall|i: int, j: int|
            0 <= i < x.len() && 0 <= j < x.len() && i != j implies x[i] != x[j] by {
            if x[i] == x[j] {
                if i < j {
                    assert(pkey(x[i]) != pkey(x[j]));
                } else {
                    assert(pkey(x[j]) != pkey(x[i]));
                }
            }
        }
    }
    x.lemma_multiset_has_no_duplicates();
    y.lemma_multiset_has_no_duplicates_conv();
    assert forall|i: int, j: int| 0 <= i < j < y.len() implies pkey(#[trigger] y[i]) != pkey(
        #[trigger] y[j],
    ) by {
        if pkey(y[i]) == pkey(y[j]) {
            assert(y[i] != y[j]);
            assert(y.contains(y[i]) && y.contains(y[j]));
            assert(x.to_multiset().count(y[i]) > 0);
            assert(x.to_multiset().count(y[j]) > 0);
            assert(x.contains(y[i]) && x.contains(y[j]));
            let a = choose|a: int| 0 <= a < x.len() && x[a] == y[i];
            let b = choose|b: int| 0 <= b < x.len() && x[b] == y[j];
            assert(a != b);
            if a < b {
                assert(pkey(x[a]) != pkey(x[b]));
            } else {
                assert(pkey(x[b]) != pkey(x[a]));
            }
            assert(false);
        }
    }
}

/// Law: an ordering projection is deterministic. The store's unique primary
/// keys break every derived-key tie, so any two sequences that hold the same
/// items sorted by the same derived key are the same sequence.
pub proof fn lemma_order_projection_unique<V>(
    x: Seq<V>,
    y: Seq<V>,
    dk: spec_fn(V) -> SortKeyV,
    pk: spec_fn(V) -> SortKeyV,
)
    requires
        vstd::relations::sorted_by(x, by_pair(dk, pk)),
        vstd::relations::sorted_by(y, by_pair(dk, pk)),
        x.to_multiset() == y.to_multiset(),
        distinct_pkeys(x, pk),
    ensures
        x == y,
    decreases x.len(),
{
    broadcast use vstd::seq_lib::group_to_multiset_ensures;
    broadcast use vstd::multiset::group_multiset_axioms;

    let leq = by_pair(dk, pk);
    if x.len() == 0 {
        assert(y.to_multiset().len() == 0);
        assert(x =~= y);
    } else {
        lemma_distinct_pkeys_multiset(x, y, pk);
        assert(x.to_multiset().len() == x.len());
        assert(y.to_multiset().len() == y.len());
        assert(x.contains(x[0]));
        assert(y.to_multiset().count(x[0]) > 0);
        assert(y.contains(x[0]));
        let j = choose|j: int| 0 <= j < y.len() && y[j] == x[0];
        assert(x.to_multiset().count(y[0]) > 0) by {
            assert(y.contains(y[0]));
        }
        assert(x.contains(y[0]));
        let i = choose|i: int| 0 <= i < x.len() && x[i] == y[0];
        if x[0] != y[0] {
            assert(i != 0 && j != 0);
            assert(leq(y[0], y[j]));
            assert(leq(x[0], x[i]));
            lemma_pair_le_antisym((dk(x[0]), pk(x[0])), (dk(y[0]), pk(y[0])));
            assert(pk(y[j]) == pk(y[0]));
            assert(false);
        }
        assert(x.drop_first().to_multiset() =~= x.to_multiset().remove(x[0])) by {
            assert(x.remove(0) =~= x.drop_first());
        }
        assert(y.drop_first().to_multiset() =~= y.to_multiset().remove(y[0])) by {
            assert(y.remove(0) =~= y.drop_first());
        }
        assert(forall|k: int| 0 <= k < x.len() - 1 ==> #[trigger] x.drop_first()[k] == x[k + 1]);
        assert(forall|k: int| 0 <= k < y.len() - 1 ==> #[trigger] y.drop_first()[k] == y[k + 1]);
        assert(vstd::relations::sorted_by(x.drop_first(), leq));
        assert(vstd::relations::sorted_by(y.drop_first(), leq));
        assert(distinct_pkeys(x.drop_first(), pk));
        lemma_order_projection_unique(x.drop_first(), y.drop_first(), dk, pk);
        assert(x.drop_first() =~= y.drop_first());
        assert forall|k: int| 0 <= k < x.len() implies x[k] == y[k] by {
            if k > 0 {
                assert(x[k] == x.drop_first()[k - 1]);
                assert(y[k] == y.drop_first()[k - 1]);
            }
        }
        assert(x =~= y);
    }
}

/// Law: an ordering projection carries exactly the primary keys of the
/// store's own iteration order.
pub proof fn lemma_order_by_same_pkeys<V>(
    contents: Seq<V>,
    output: Seq<V>,
    pkey: spec_fn(V) -> SortKeyV,
)
    requires
        output.to_multiset() == contents.to_multiset(),
    ensures
        forall|k: SortKeyV| has_pkey(output, k, pkey) <==> has_pkey(contents, k, pkey),
{
    broadcast use vstd::seq_lib::group_to_multiset_ensures;

    assert forall|k: SortKeyV| has_pkey(output, k, pkey) <==> has_pkey(contents, k, pkey) by {
        if has_pkey(output, k, pkey) {
            let i = choose|i: int| 0 <= i < output.len() && pkey(#[trigger] output[i]) == k;
            assert(output.contains(output[i]));
            assert(output.to_multiset().count(output[i]) > 0);
            assert(contents.contains(output[i]));
            let j = choose|j: int| 0 <= j < contents.len() && contents[j] == output[i];
            assert(pkey(contents[j]) == k);
            assert(has_pkey(contents, k, pkey));
        }
        if has_pkey(contents, k, pkey) {
            let i = choose|i: int| 0 <= i < contents.len() && pkey(#[trigger] contents[i]) == k;
            assert(contents.contains(contents[i]));
            assert(contents.to_multiset().count(contents[i]) > 0);
            assert(output.contains(contents[i]));
            let j = choose|j: int| 0 <= j < output.len() && output[j] == contents[i];
            assert(pkey(output[j]) == k);
            assert(has_pkey(output, k, pkey));
        }
    }
}

/// A store of items, deduplicated and iterated by primary key.
pub struct Store<T: Keyed> {
    items: Vec<T>,
}

impl<T: Keyed> View for Store<T> {
    type V = Seq<T::V>;

    closed spec fn view(&self) -> Seq<T::V> {
        self.items@.map_values(|t: T| t@)
    }
}

impl<T: Keyed> Store<T> {
    /// The store invariant: contents strictly sorted by primary key.
    pub open spec fn wf(&self) -> bool {
        sorted_strict(self@, |v: T::V| T::pkey(v))
    }

    /// An empty store.
    pub fn empty() -> (r: Store<T>)
        ensures
            r@ == Seq::<T::V>::empty(),
            r.wf(),
    {
        let r = Store { items: Vec::new() };
        proof {
            assert(r@ =~= Seq::<T::V>::empty());
        }
        r
    }

    /// A store holding the given items, first occurrence of a primary key
    /// winning.
    pub fn new(items: Vec<T>) -> (r: Store<T>)
        ensures
            r@ == spec_store_extend(
                Seq::<T::V>::empty(),
                items@.map_values(|t: T| t@),
                |v: T::V| T::pkey(v),
            ),
            r.wf(),
    {
        let mut r = Store::empty();
        r.extend(&items);
        r
    }

    /// Same as `new`.
    pub fn with_items(items: Vec<T>) -> (r: Store<T>)
        ensures
            r@ == spec_store_extend(
                Seq::<T::V>::empty(),
                items@.map_values(|t: T| t@),
                |v: T::V| T::pkey(v),
            ),
            r.wf(),
    {
        Store::new(items)
    }

    /// Removes every item.
    pub fn clear(&mut self)
        ensures
            final(self)@ == Seq::<T::V>::empty(),
            final(self).wf(),
    {
        self.items.clear();
        proof {
            assert(final(self)@ =~= Seq::<T::V>::empty());
        }
    }

    /// Inserts one item: a no-op when its primary key is already present,
    /// otherwise placed at its sorted position.
    pub fn insert(&mut self, item: T)
        requires
            old(self).wf(),
        ensures
            final(self)@ == spec_store_insert(old(self)@, item@, |v: T::V| T::pkey(v)),
            final(self).wf(),
            !has_pkey(old(self)@, T::pkey(item@), |v: T::V| T::pkey(v))
                ==> final(self)@.to_multiset() == old(self)@.to_multiset().insert(item@),
            has_pkey(old(self)@, T::pkey(item@), |v: T::V| T::pkey(v)) ==> final(self)@ == old(
                self,
            )@,
    {
        let key = item.primary_key();
        let n = self.items.len();
        let mut p: usize = 0;
        while p < n && self.items[p].primary_key().lt(&key)
            invariant
                0 <= p <= n,
                n == self.items@.len(),
                key@ == T::pkey(item@),
                forall|k: int| 0 <= k < p ==> key_lt(T::pkey(#[trigger] self@[k]), T::pkey(item@)),
            decreases n - p,
        {
            proof {
                assert(self@[p as int] == self.items@[p as int]@);
            }
            p = p + 1;
        }
        proof {
            assert(self@.len() == n);
            if p < n {
                assert(self@[p as int] == self.items@[p as int]@);
            }
            lemma_insert_props(self@, item@, |v: T::V| T::pkey(v), p as int);
        }
        if p < n && self.items[p].primary_key().key_eq(&key) {
            // already present: keep the stored item
            proof {
                assert(self@[p as int] == self.items@[p as int]@);
                assert(T::pkey(self@[p as int]) == T::pkey(item@));
            }
            return ;
        }
        proof {
            if p < n {
                assert(self@[p as int] == self.items@[p as int]@);
                assert(T::pkey(self@[p as int]) != T::pkey(item@));
            }
        }
        let ghost old_view = self@;
        self.items.insert(p, item);
        proof {
            assert(self@ =~= old_view.insert(p as int, item@));
        }
    }

    /// Inserts each item in order.
    pub fn extend(&mut self, items: &Vec<T>)
        requires
            old(self).wf(),
        ensures
            final(self)@ == spec_store_extend(
                old(self)@,
                items@.map_values(|t: T| t@),
                |v: T::V| T::pkey(v),
            ),
            final(self).wf(),
    {
        let ghost xs = items@.map_values(|t: T| t@);
        let n = items.len();
        let mut i: usize = 0;
        proof {
            assert(xs.take(0) =~= Seq::<T::V>::empty());
        }
        while i < n
            invariant
                0 <= i <= n,
                n == items@.len(),
                xs == items@.map_values(|t: T| t@),
                self@ == spec_store_extend(old(self)@, xs.take(i as int), |v: T::V| T::pkey(v)),
                self.wf(),
            decreases n - i,
        {
            let item = items[i].dup();
            proof {
                assert(item@ == xs[i as int]);
            }
            self.insert(item);
            i = i + 1;
            proof {
                assert(xs.take(i as int).drop_last() =~= xs.take(i - 1));
                assert(xs.take(i as int).last() == xs[i - 1]);
            }
        }
        proof {
            assert(xs.take(n as int) =~= xs);
        }
    }

    /// The items, in primary-key order.
    pub fn iter(&self) -> (r: Vec<T>)
        ensures
            r@.map_values(|t: T| t@) == self@,
            r@.len() == self@.len(),
    {
        let n = self.items.len();
        let mut r: Vec<T> = Vec::new();
        let mut i: usize = 0;
        while i < n
            invariant
                0 <= i <= n,
                n == self.items@.len(),
                r@.len() == i,
                forall|j: int| 0 <= j < i ==> #[trigger] r@[j]@ == self@[j],
            decreases n - i,
        {
            let item = self.items[i].dup();
            proof {
                assert(item@ == self@[i as int]);
            }
            r.push(item);
            i = i + 1;
        }
        proof {
            assert(r@.map_values(|t: T| t@) =~= self@);
        }
        r
    }

    /// A reference to the item at a position of the primary order.
    pub fn get(&self, i: usize) -> (r: &T)
        requires
            i < self@.len(),
        ensures
            r@ == self@[i as int],
    {
        proof {
            assert(self.items@[i as int]@ == self@[i as int]);
        }
        &self.items[i]
    }

    /// The items sorted by a derived key, ties broken by primary key.
    pub fn order_by_asc<K: KeyFn<T>>(&self, key: &K) -> (r: Vec<T>)
        requires
            self.wf(),
        ensures
            r@.map_values(|t: T| t@).to_multiset() == self@.to_multiset(),
            vstd::relations::sorted_by(
                r@.map_values(|t: T| t@),
                by_pair(|v: T::V| K::dkey(v), |v: T::V| T::pkey(v)),
            ),
    {
        let n = self.items.len();
        let mut out: Vec<T> = Vec::new();
        let mut i: usize = 0;
        proof {
            assert(self@.take(0) =~= Seq::<T::V>::empty());
            assert(out@.map_values(|t: T| t@) =~= Seq::<T::V>::empty());
            broadcast use vstd::seq_lib::group_to_multiset_ensures;

        }
        while i < n
            invariant
                0 <= i <= n,
                n == self.items@.len(),
                out@.map_values(|t: T| t@).to_multiset() == self@.take(i as int).to_multiset(),
                vstd::relations::sorted_by(
                    out@.map_values(|t: T| t@),
                    by_pair(|v: T::V| K::dkey(v), |v: T::V| T::pkey(v)),
                ),
            decreases n - i,
        {
            let item = self.items[i].dup();
            proof {
                assert(item@ == self@[i as int]);
            }
            let idk = key.derived_key(&item);
            let ipk = item.primary_key();
            let ghost cur = out@.map_values(|t: T| t@);
            let m = out.len();
            let mut p: usize = 0;
            while p < m && pair_lt_exec(
                &key.derived_key(&out[p]),
                &out[p].primary_key(),
                &idk,
                &ipk,
            )
                invariant
                    0 <= p <= m,
                    m == out@.len(),
                    cur == out@.map_values(|t: T| t@),
                    idk@ == K::dkey(item@),
                    ipk@ == T::pkey(item@),
                    forall|k: int|
                        0 <= k < p ==> pair_lt(
                            (K::dkey(#[trigger] cur[k]), T::pkey(cur[k])),
                            (K::dkey(item@), T::pkey(item@)),
                        ),
                decreases m - p,
            {
                proof {
                    assert(cur[p as int] == out@[p as int]@);
                }
                p = p + 1;
            }
            proof {
                if p < m {
                    assert(cur[p as int] == out@[p as int]@);
                }
            }
            let ghost old_take = self@.take(i as int);
            out.insert(p, item);
            i = i + 1;
            proof {
                let new_out = out@.map_values(|t: T| t@);
                assert(new_out =~= cur.insert(p as int, self@[i - 1]));
                lemma_ordered_insert(
                    cur,
                    self@[i - 1],
                    |v: T::V| K::dkey(v),
                    |v: T::V| T::pkey(v),
                    p as int,
                );
                broadcast use vstd::seq_lib::group_to_multiset_ensures;

                assert(self@.take(i as int) =~= old_take.push(self@[i - 1]));
                assert(self@.take(i as int).to_multiset() =~= old_take.to_multiset().insert(
                    self@[i - 1],
                ));
            }
        }
        proof {
            assert(self@.take(n as int) =~= self@);
        }
        out
    }

    /// The items sorted by a derived key descending, ties broken by primary
    /// key descending: the exact reverse of `order_by_asc`.
    pub fn order_by_desc<K: KeyFn<T>>(&self, key: &K) -> (r: Vec<T>)
        requires
            self.wf(),
        ensures
            r@.map_values(|t: T| t@).to_multiset() == self@.to_multiset(),
            vstd::relations::sorted_by(
                r@.map_values(|t: T| t@).reverse(),
                by_pair(|v: T::V| K::dkey(v), |v: T::V| T::pkey(v)),
            ),
    {
        let asc = self.order_by_asc(key);
        let ghost a = asc@.map_values(|t: T| t@);
        let n = asc.len();
        let mut out: Vec<T> = Vec::new();
        let mut i: usize = 0;
        while i < n
            invariant
                0 <= i <= n,
                n == asc@.len(),
                a == asc@.map_values(|t: T| t@),
                out@.len() == i,
                forall|j: int| 0 <= j < i ==> #[trigger] out@[j]@ == a[n - 1 - j],
            decreases n - i,
        {
            let item = asc[n - 1 - i].dup();
            proof {
                assert(item@ == a[n - 1 - i]);
            }
            out.push(item);
            i = i + 1;
        }
        proof {
            let m = out@.map_values(|t: T| t@);
            assert(m.reverse() =~= a);
            m.lemma_reverse_to_multiset();
        }
        out
    }

    /// Same ordering as `order_by_asc`.
    pub fn order_by_asc_ref<K: KeyFn<T>>(&self, key: &K) -> (r: Vec<T>)
        requires
            self.wf(),
        ensures
            r@.map_values(|t: T| t@).to_multiset() == self@.to_multiset(),
            vstd::relations::sorted_by(
                r@.map_values(|t: T| t@),
                by_pair(|v: T::V| K::dkey(v), |v: T::V| T::pkey(v)),
            ),
    {
        self.order_by_asc(key)
    }

    /// Same ordering as `order_by_desc`.
    pub fn order_by_desc_ref<K: KeyFn<T>>(&self, key: &K) -> (r: Vec<T>)
        requires
            self.wf(),
        ensures
            r@.map_values(|t: T| t@).to_multiset() == self@.to_multiset(),
            vstd::relations::sorted_by(
                r@.map_values(|t: T| t@).reverse(),
                by_pair(|v: T::V| K::dkey(v), |v: T::V| T::pkey(v)),
            ),
    {
        self.order_by_desc(key)
    }
}

impl<T: Keyed> Default for Store<T> {
    /// An empty store.
    fn default() -> (r: Store<T>)
        ensures
            r@ == Seq::<T::V>::empty(),
            r.wf(),
    {
        Store::empty()
    }
}

impl<T: Keyed> Length for Store<T> {
    open spec fn spec_len(&self) -> nat {
        self@.len()
    }

    fn len(&self) -> (r: usize)
        ensures
            r == self.spec_len(),
    {
        self.items.len()
    }
}

impl Keyed for String {
    /// A plain text item is its own primary key.
    open spec fn pkey(v: Seq<char>) -> SortKeyV {
        SortKeyV::Text(v)
    }

    fn primary_key(&self) -> (k: SortKey)
        ensures
            k@ == Self::pkey(self@),
    {
        SortKey::Text(crate::text::chars_of(self.as_str()))
    }

    fn dup(&self) -> (r: Self)
        ensures
            r@ == self@,
    {
        self.clone()
    }
}

/// Orders text items by themselves.
pub struct TextKey;

impl KeyFn<String> for TextKey {
    open spec fn dkey(v: Seq<char>) -> SortKeyV {
        SortKeyV::Text(v)
    }

    fn derived_key(&self, t: &String) -> (k: SortKey)
        ensures
            k@ == Self::dkey(t@),
    {
        SortKey::Text(crate::text::chars_of(t.as_str()))
    }
}

/// Orders text items by their decimal value; text that is no numeral, or
/// whose value does not fit, falls back to the text itself.
pub struct NumericKey;

impl KeyFn<String> for NumericKey {
    open spec fn dkey(v: Seq<char>) -> SortKeyV {
        match crate::text::spec_parse_int(v) {
            Some(n) => if i64::MIN <= n <= i64::MAX {
                SortKeyV::Int(n)
            } else {
                SortKeyV::Text(v)
            },
            None => SortKeyV::Text(v),
        }
    }

    fn derived_key(&self, t: &String) -> (k: SortKey)
        ensures
            k@ == Self::dkey(t@),
    {
        let cs = crate::text::chars_of(t.as_str());
        match crate::text::parse_int(&cs) {
            Some(n) => SortKey::Int(n),
            None => SortKey::Text(cs),
        }
    }
}

/// Executable strict comparison of (derived, primary) key pairs.
pub fn pair_lt_exec(a0: &SortKey, a1: &SortKey, b0: &SortKey, b1: &SortKey) -> (r: bool)
    ensures
        r == pair_lt((a0@, a1@), (b0@, b1@)),
{
    let le = if a0.key_eq(b0) {
        a1.le(b1)
    } else {
        a0.lt(b0)
    };
    le && !(a0.key_eq(b0) && a1.key_eq(b1))
}

/// Inserting at the first position not strictly below the new pair keeps the
/// output sorted and adds exactly the new element to the multiset.
proof fn lemma_ordered_insert<V>(
    s: Seq<V>,
    v: V,
    dk: spec_fn(V) -> SortKeyV,
    pk: spec_fn(V) -> SortKeyV,
    p: int,
)
    requires
        vstd::relations::sorted_by(s, by_pair(dk, pk)),
        0 <= p <= s.len(),
        forall|k: int| 0 <= k < p ==> pair_lt((dk(#[trigger] s[k]), pk(s[k])), (dk(v), pk(v))),
        p < s.len() ==> !pair_lt((dk(s[p]), pk(s[p])), (dk(v), pk(v))),
    ensures
        vstd::relations::sorted_by(s.insert(p, v), by_pair(dk, pk)),
        s.insert(p, v).to_multiset() == s.to_multiset().insert(v),
{
    let leq = by_pair(dk, pk);
    let r = s.insert(p, v);
    s.insert_ensures(p, v);
    let vp = (dk(v), pk(v));
    assert forall|k: int| p <= k < s.len() implies pair_le(vp, (dk(#[trigger] s[k]), pk(s[k]))) by {
        let kp = (dk(s[k]), pk(s[k]));
        let pp = (dk(s[p]), pk(s[p]));
        lemma_pair_not_lt(pp, vp);
        if k == p {
        } else {
            assert(leq(s[p], s[k]));
            lemma_pair_le_trans(vp, pp, kp);
        }
    }
    assert forall|i: int, j: int| 0 <= i < j < r.len() implies #[trigger] leq(r[i], r[j]) by {
        if j < p {
            assert(r[i] == s[i] && r[j] == s[j]);
            assert(leq(s[i], s[j]));
        } else if i > p {
            assert(r[i] == s[i - 1] && r[j] == s[j - 1]);
            assert(leq(s[i - 1], s[j - 1]));
        } else if i == p {
            assert(r[i] == v && r[j] == s[j - 1]);
            assert(pair_le(vp, (dk(s[j - 1]), pk(s[j - 1]))));
        } else if j == p {
            assert(r[i] == s[i] && r[j] == v);
            assert(pair_lt((dk(s[i]), pk(s[i])), vp));
        } else {
            // i < p < j
            assert(r[i] == s[i] && r[j] == s[j - 1]);
            assert(pair_lt((dk(s[i]), pk(s[i])), vp));
            assert(pair_le(vp, (dk(s[j - 1]), pk(s[j - 1]))));
            lemma_pair_le_trans((dk(s[i]), pk(s[i])), vp, (dk(s[j - 1]), pk(s[j - 1])));
        }
    }
    assert(r.to_multiset() == s.to_multiset().insert(v)) by {
        assert(r == s.take(p).push(v) + s.skip(p));
        lemma_multiset_commutative(s.take(p).push(v), s.skip(p));
        lemma_multiset_commutative(s.take(p), s.skip(p));
        assert(s.take(p) + s.skip(p) =~= s);
        broadcast use vstd::seq_lib::group_to_multiset_ensures;

        assert(s.take(p).push(v).to_multiset() =~= s.take(p).to_multiset().insert(v));
        assert(r.to_multiset() =~= s.to_multiset().insert(v));
    }
}

} // verus!
