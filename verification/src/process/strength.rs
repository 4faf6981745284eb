//! The strength of storm cells: each cell's strongest gate, and the order of
//! cells from strongest to weakest.
use vstd::prelude::*;
use crate::model::data::sweep_field::SweepField;
use crate::model::float_order::{F32_MIN_BITS, f32_bits_lt, f32_is_nan, f32_key, f32_lt, f32_order_key};
use crate::model::sorting::{key_is, lemma_insert_stable, lemma_stable_sorted_empty, stable_sorted_by_key};
use crate::process::detection::Gate;

verus! {

/// Gate `k` of `values` holds a value above `f32::MIN` that no value of
/// `values` exceeds.
pub open spec fn is_strongest(values: Seq<u32>, k: int) -> bool {
    &&& 0 <= k < values.len()
    &&& f32_lt(F32_MIN_BITS, values[k])
    &&& forall|j: int| 0 <= j < values.len() ==> !f32_lt(values[k], #[trigger] values[j])
}

/// The values of the gates of a component, in the component's order.
pub open spec fn component_values(field: SweepField, component: Seq<Gate>) -> Seq<u32> {
    component.map_values(|g: Gate| field.spec_values()[field.index_of(g.0 as int, g.1 as int)])
}

/// The first gate of `values` that is strongest: a value above `f32::MIN`
/// that no other value exceeds. `None` when no value is above `f32::MIN`
/// (NaN is above nothing).
pub fn strongest_value(values: &[u32]) -> (r: Option<usize>)
    ensures
        r is None <==> forall|j: int| 0 <= j < values@.len() ==> !f32_lt(F32_MIN_BITS, #[trigger] values@[j]),
        r matches Some(k) ==> is_strongest(values@, k as int) && forall|j: int|
            0 <= j < k ==> !is_strongest(values@, j),
{
    let mut best: u32 = F32_MIN_BITS;
    let mut idx: Option<usize> = None;
    let mut i: usize = 0;
    while i < values.len()
        invariant
            i <= values@.len(),
            !f32_is_nan(best),
            forall|j: int| 0 <= j < i ==> !f32_lt(best, #[trigger] values@[j]),
            idx is None ==> best == F32_MIN_BITS,
            idx is None ==> forall|j: int| 0 <= j < i ==> !f32_lt(F32_MIN_BITS, #[trigger] values@[j]),
            idx matches Some(k) ==> {
                &&& k < i
                &&& best == values@[k as int]
                &&& is_strongest(values@.take(i as int), k as int)
                &&& forall|j: int| 0 <= j < k ==> !is_strongest(values@.take(i as int), j)
            },
        decreases values@.len() - i,
    {
        let v = values[i];
        let ghost before = values@.take(i as int);
        let ghost after = values@.take(i + 1);
        proof {
            assert(after.drop_last() =~= before);
        }
        if f32_bits_lt(best, v) {
            proof {
                assert forall|j: int| 0 <= j < i + 1 implies !f32_lt(v, #[trigger] values@[j]) by {
                    if j < i {
                        assert(!f32_lt(best, values@[j]));
                    }
                }
                assert forall|j: int| 0 <= j < i implies !is_strongest(after, j) by {
                    assert(after[i as int] == v);
                    if !f32_is_nan(after[j]) {
                        assert(!f32_lt(best, values@[j]));
                        assert(f32_lt(after[j], after[i as int]));
                    }
                }
            }
            best = v;
            idx = Some(i);
        } else {
            proof {
                match idx {
                    Some(k) => {
                        assert forall|j: int| 0 <= j < k implies !is_strongest(after, j) by {
                            assert(!is_strongest(before, j));
                            if f32_lt(F32_MIN_BITS, after[j]) {
                                let l = choose|l: int| 0 <= l < before.len() && f32_lt(before[j], #[trigger] before[l]);
                                assert(after[l] == before[l]);
                            }
                        }
                        assert forall|j: int| 0 <= j < after.len() implies !f32_lt(after[k as int], #[trigger] after[j]) by {
                            if j < i {
                                assert(after[j] == before[j]);
                            }
                        }
                    },
                    None => {},
                }
            }
        }
        i = i + 1;
    }
    proof {
        assert(values@.take(values@.len() as int) =~= values@);
    }
    idx
}

/// The value and the position in the component of the strongest gate of a
/// component of `field`: the first gate whose value is above `f32::MIN` and
/// exceeded by no other gate's value. Where there is none, the value is
/// `f32::MIN` and there is no position.
pub fn strongest_gate(field: &SweepField, component: &[Gate]) -> (r: (u32, Option<usize>))
    requires
        forall|k: int| 0 <= k < component@.len() ==> field.in_bounds(
            (#[trigger] component@[k]).0 as int,
            component@[k].1 as int,
        ),
    ensures
        r.1 is None ==> r.0 == F32_MIN_BITS && forall|j: int|
            0 <= j < component@.len() ==> !f32_lt(F32_MIN_BITS, #[trigger] component_values(*field, component@)[j]),
        r.1 matches Some(k) ==> r.0 == component_values(*field, component@)[k as int] && is_strongest(
            component_values(*field, component@),
            k as int,
        ) && forall|j: int| 0 <= j < k ==> !is_strongest(component_values(*field, component@), j),
{
    let mut values: Vec<u32> = Vec::new();
    let mut i: usize = 0;
    while i < component.len()
        invariant
            i <= component@.len(),
            forall|k: int| 0 <= k < component@.len() ==> field.in_bounds(
                (#[trigger] component@[k]).0 as int,
                component@[k].1 as int,
            ),
            values@ == component_values(*field, component@.take(i as int)),
        decreases component@.len() - i,
    {
        let g = component[i];
        let (v, _) = field.get(g.0, g.1);
        values.push(v);
        i = i + 1;
        proof {
            assert(values@ =~= component_values(*field, component@.take(i as int)));
        }
    }
    proof {
        assert(component@.take(component@.len() as int) =~= component@);
    }
    match strongest_value(values.as_slice()) {
        Some(k) => (values[k], Some(k)),
        None => (F32_MIN_BITS, None),
    }
}

/// The strength key of cell `i`: the order of its maximum, strongest first.
pub open spec fn strength_key(maxima: Seq<u32>) -> spec_fn(usize) -> int {
    |i: usize| -f32_key(maxima[i as int])
}

/// The indices `0..n`, in order.
pub open spec fn indices(n: int) -> Seq<usize> {
    Seq::new(n as nat, |i: int| i as usize)
}

/// In an order of cells from strongest to weakest, the first cell is the
/// strongest: no cell's maximum exceeds the first cell's.
pub proof fn lemma_first_is_strongest(order: Seq<usize>, maxima: Seq<u32>)
    requires
        0 < maxima.len() <= usize::MAX,
        forall|i: int| 0 <= i < maxima.len() ==> !f32_is_nan(#[trigger] maxima[i]),
        stable_sorted_by_key(order, indices(maxima.len() as int), strength_key(maxima)),
    ensures
        order.len() > 0,
        order[0] < maxima.len(),
        forall|i: int| 0 <= i < maxima.len() ==> !f32_lt(maxima[order[0] as int], #[trigger] maxima[i]),
{
    let input = indices(maxima.len() as int);
    let key = strength_key(maxima);
    let first = order[0];
    let group = key_is(key, key(first));
    assert(order.filter(group) == input.filter(group));
    order.lemma_filter_contains(group, 0);
    #[allow(deprecated)]
    input.lemma_filter_contains_rev(group, first);
    let q = choose|q: int| 0 <= q < input.len() && input[q] == first;
    assert(first == q as usize);
    assert forall|i: int| 0 <= i < maxima.len() implies !f32_lt(maxima[first as int], #[trigger] maxima[i]) by {
        let g = key_is(key, key(i as usize));
        assert(input[i] == i as usize);
        input.lemma_filter_contains(g, i);
        assert(order.filter(g) == input.filter(g));
        #[allow(deprecated)]
        order.lemma_filter_contains_rev(g, i as usize);
        let p = choose|p: int| 0 <= p < order.len() && order[p] == i as usize;
        assert(key(order[0]) <= key(order[p]));
        assert(key(order[p]) == -f32_key(maxima[i]));
        assert(key(order[0]) == -f32_key(maxima[first as int]));
    }
}

/// The order of cells from strongest to weakest by their maxima (none a
/// NaN): the indices of `maxima`, stably sorted by descending value, so that
/// cells of equal maxima keep their order.
pub fn strength_order(maxima: &[u32]) -> (r: Vec<usize>)
    requires
        forall|i: int| 0 <= i < maxima@.len() ==> !f32_is_nan(#[trigger] maxima@[i]),
    ensures
        stable_sorted_by_key(r@, indices(maxima@.len() as int), strength_key(maxima@)),
{
    let ghost input = indices(maxima@.len() as int);
    let ghost key = strength_key(maxima@);
    let mut out: Vec<usize> = Vec::new();
    proof {
        lemma_stable_sorted_empty(key);
        assert(input.take(0) =~= Seq::<usize>::empty());
    }
    let mut j: usize = 0;
    while j < maxima.len()
        invariant
            input == indices(maxima@.len() as int),
            j <= input.len(),
            key == strength_key(maxima@),
            forall|q: int| 0 <= q < out@.len() ==> (#[trigger] out@[q]) < maxima@.len(),
            stable_sorted_by_key(out@, input.take(j as int), key),
            out@.len() == j,
        decreases input.len() - j,
    {
        let kx = f32_order_key(maxima[j]);
        let mut p: usize = 0;
        while p < out.len() && kx <= f32_order_key(maxima[out[p]])
            invariant
                p <= out@.len(),
                key == strength_key(maxima@),
                kx == f32_key(maxima@[j as int]),
                j < maxima@.len(),
                forall|q: int| 0 <= q < out@.len() ==> (#[trigger] out@[q]) < maxima@.len(),
                forall|k: int| 0 <= k < p ==> key(#[trigger] out@[k]) <= key(j),
            decreases out@.len() - p,
        {
            p = p + 1;
        }
        proof {
            let s = out@;
            assert(input[j as int] == j);
            assert forall|k: int| p <= k < s.len() implies key(#[trigger] s[k]) > key(j) by {
                assert(key(s[p as int]) > key(j));
                assert(key(s[p as int]) <= key(s[k]));
            }
            lemma_insert_stable(s, input.take(j as int), j, p as int, key);
            assert(input.take(j + 1) =~= input.take(j as int).push(j));
        }
        out.insert(p, j);
        j = j + 1;
    }
    proof {
        assert(input.take(input.len() as int) =~= input);
    }
    out
}

} // verus!
