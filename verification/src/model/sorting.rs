//! Stable sorting by an integer key: its statement and the step lemma of an
//! insertion sort.
use vstd::prelude::*;

verus! {

/// Selects the items whose key is `k`.
pub open spec fn key_is<A>(key: spec_fn(A) -> int, k: int) -> spec_fn(A) -> bool {
    |a: A| key(a) == k
}

/// The items are in non-decreasing order of key.
pub open spec fn sorted_by_key<A>(s: Seq<A>, key: spec_fn(A) -> int) -> bool {
    forall|i: int, j: int| 0 <= i <= j < s.len() ==> key(#[trigger] s[i]) <= key(#[trigger] s[j])
}

/// `out` is the stable sort of `input` by `key`: sorted, and for every key
/// the items with that key are those of the input, in the input's order.
pub open spec fn stable_sorted_by_key<A>(out: Seq<A>, input: Seq<A>, key: spec_fn(A) -> int) -> bool {
    &&& out.len() == input.len()
    &&& sorted_by_key(out, key)
    &&& forall|k: int| #[trigger] out.filter(key_is(key, k)) == input.filter(key_is(key, k))
}

/// Filtering keeps nothing when no item passes.
pub proof fn lemma_filter_none<A>(s: Seq<A>, pred: spec_fn(A) -> bool)
    requires
        forall|i: int| 0 <= i < s.len() ==> !pred(#[trigger] s[i]),
    ensures
        s.filter(pred) == Seq::<A>::empty(),
    decreases s.len(),
{
    reveal(Seq::filter);
    if s.len() > 0 {
        lemma_filter_none(s.drop_last(), pred);
    }
}

/// Filtering a one-item sequence.
pub proof fn lemma_filter_single<A>(x: A, pred: spec_fn(A) -> bool)
    ensures
        seq![x].filter(pred) == (if pred(x) {
            seq![x]
        } else {
            Seq::<A>::empty()
        }),
{
    reveal_with_fuel(Seq::filter, 2);
    assert(seq![x].drop_last() =~= Seq::<A>::empty());
    assert(Seq::<A>::empty().push(x) =~= seq![x]);
}

/// The empty sequence is the stable sort of the empty sequence.
pub proof fn lemma_stable_sorted_empty<A>(key: spec_fn(A) -> int)
    ensures
        stable_sorted_by_key(Seq::<A>::empty(), Seq::<A>::empty(), key),
{
    reveal(Seq::filter);
}

/// Inserting `x` just after the items whose key is not greater than its own
/// keeps the sort stable.
pub proof fn lemma_insert_stable<A>(s: Seq<A>, input: Seq<A>, x: A, p: int, key: spec_fn(A) -> int)
    requires
        stable_sorted_by_key(s, input, key),
        0 <= p <= s.len(),
        forall|i: int| 0 <= i < p ==> key(#[trigger] s[i]) <= key(x),
        forall|i: int| p <= i < s.len() ==> key(#[trigger] s[i]) > key(x),
    ensures
        stable_sorted_by_key(s.insert(p, x), input.push(x), key),
{
    let out = s.insert(p, x);
    let a = s.take(p);
    let b = s.skip(p);
    let one = seq![x];
    assert(out =~= a + one + b);
    assert(s =~= a + b);
    assert(sorted_by_key(out, key)) by {
        assert forall|i: int, j: int| 0 <= i <= j < out.len() implies key(#[trigger] out[i]) <= key(
            #[trigger] out[j],
        ) by {
            if i < p && j < p {
                assert(out[i] == s[i] && out[j] == s[j]);
            } else if i < p && j == p {
                assert(out[i] == s[i]);
            } else if i < p {
                assert(out[i] == s[i] && out[j] == s[j - 1]);
            } else if i == p && j > p {
                assert(out[j] == s[j - 1]);
            } else if i > p {
                assert(out[i] == s[i - 1] && out[j] == s[j - 1]);
            }
        }
    }
    assert forall|k: int| #[trigger] out.filter(key_is(key, k)) == input.push(x).filter(key_is(key, k)) by {
        let pred = key_is(key, k);
        Seq::filter_distributes_over_add(a + one, b, pred);
        Seq::filter_distributes_over_add(a, one, pred);
        Seq::filter_distributes_over_add(a, b, pred);
        lemma_filter_single(x, pred);
        input.lemma_filter_push(x, pred);
        assert(s.filter(pred) == input.filter(pred));
        if key(x) == k {
            assert forall|i: int| 0 <= i < b.len() implies !pred(#[trigger] b[i]) by {
                assert(b[i] == s[p + i]);
            }
            lemma_filter_none(b, pred);
            assert(a.filter(pred) + Seq::<A>::empty() =~= a.filter(pred));
            assert(out.filter(pred) =~= s.filter(pred).push(x));
        } else {
            assert(a.filter(pred) + Seq::<A>::empty() =~= a.filter(pred));
            assert(out.filter(pred) =~= s.filter(pred));
        }
    }
}


/// Two sequences sorted by one key, with the same items of every key in the
/// same order, are equal.
pub proof fn lemma_sorted_with_same_groups_equal<A>(a: Seq<A>, b: Seq<A>, key: spec_fn(A) -> int)
    requires
        sorted_by_key(a, key),
        sorted_by_key(b, key),
        forall|k: int| #[trigger] a.filter(key_is(key, k)) == b.filter(key_is(key, k)),
    ensures
        a == b,
    decreases a.len() + b.len(),
{
    if a.len() == 0 && b.len() == 0 {
        assert(a =~= b);
        return;
    }
    if a.len() > 0 {
        let ka = key(a.last());
        a.filter_lemma(key_is(key, ka));
        assert(a.filter(key_is(key, ka)).contains(a[a.len() - 1]));
    }
    if b.len() > 0 {
        let kb = key(b.last());
        b.filter_lemma(key_is(key, kb));
        assert(b.filter(key_is(key, kb)).contains(b[b.len() - 1]));
    }
    // Both are non-empty, and their last items have the largest key of either.
    if a.len() == 0 {
        let kb = key(b.last());
        assert(a.filter(key_is(key, kb)) =~= Seq::<A>::empty()) by {
            reveal(Seq::filter);
        }
        assert(false);
    }
    if b.len() == 0 {
        let ka = key(a.last());
        assert(b.filter(key_is(key, ka)) =~= Seq::<A>::empty()) by {
            reveal(Seq::filter);
        }
        assert(false);
    }
    let ka = key(a.last());
    let kb = key(b.last());
    b.filter_lemma(key_is(key, ka));
    a.filter_lemma(key_is(key, kb));
    let fa = a.filter(key_is(key, ka));
    let j = choose|j: int| 0 <= j < fa.len() && fa[j] == a[a.len() - 1];
    assert(key(b.filter(key_is(key, ka))[j]) == ka);
    let xb = b.filter(key_is(key, ka))[j];
    assert(b.filter(key_is(key, ka)).contains(xb));
    b.lemma_filter_contains_rev(key_is(key, ka), xb);
    let wb = choose|i: int| 0 <= i < b.len() && b[i] == xb;
    assert(key(b[wb]) <= key(b[b.len() - 1]));
    assert(kb >= ka);
    let fb = b.filter(key_is(key, kb));
    let j2 = choose|j2: int| 0 <= j2 < fb.len() && fb[j2] == b[b.len() - 1];
    assert(key(a.filter(key_is(key, kb))[j2]) == kb);
    let xa = a.filter(key_is(key, kb))[j2];
    assert(a.filter(key_is(key, kb)).contains(xa));
    a.lemma_filter_contains_rev(key_is(key, kb), xa);
    let wa = choose|i: int| 0 <= i < a.len() && a[i] == xa;
    assert(key(a[wa]) <= key(a[a.len() - 1]));
    assert(ka >= kb);
    let m = ka;
    let pa = a.drop_last();
    let pb = b.drop_last();
    assert(pa.push(a.last()) =~= a);
    assert(pb.push(b.last()) =~= b);
    pa.lemma_filter_push(a.last(), key_is(key, m));
    pb.lemma_filter_push(b.last(), key_is(key, m));
    assert(a.last() == b.last()) by {
        assert(a.filter(key_is(key, m)).last() == a.last());
        assert(b.filter(key_is(key, m)).last() == b.last());
    }
    assert forall|k: int| #[trigger] pa.filter(key_is(key, k)) == pb.filter(key_is(key, k)) by {
        pa.lemma_filter_push(a.last(), key_is(key, k));
        pb.lemma_filter_push(b.last(), key_is(key, k));
        assert(a.filter(key_is(key, k)) == b.filter(key_is(key, k)));
        if k == m {
            assert(pa.filter(key_is(key, k)) =~= a.filter(key_is(key, k)).drop_last());
            assert(pb.filter(key_is(key, k)) =~= b.filter(key_is(key, k)).drop_last());
        }
    }
    assert(sorted_by_key(pa, key));
    assert(sorted_by_key(pb, key));
    lemma_sorted_with_same_groups_equal(pa, pb, key);
}

/// A stable sort by a key has exactly one result.
pub proof fn lemma_stable_sort_unique<A>(out1: Seq<A>, out2: Seq<A>, input: Seq<A>, key: spec_fn(A) -> int)
    requires
        stable_sorted_by_key(out1, input, key),
        stable_sorted_by_key(out2, input, key),
    ensures
        out1 == out2,
{
    assert forall|k: int| #[trigger] out1.filter(key_is(key, k)) == out2.filter(key_is(key, k)) by {
        assert(out1.filter(key_is(key, k)) == input.filter(key_is(key, k)));
    }
    lemma_sorted_with_same_groups_equal(out1, out2, key);
}

} // verus!
