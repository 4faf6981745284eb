//! Storm-cell detection: connected-component labelling of the gates of a
//! polar grid that lie at or above a reflectivity threshold.
use vstd::prelude::*;
use crate::model::field::layout::{
    lemma_row_major_bounds, lemma_row_major_injective, lemma_row_major_next_row,
    lemma_row_major_past_end, row_major,
};
use crate::model::data::gate_status::GateStatus;
use crate::model::data::sweep_field::SweepField;
use crate::model::float_order::{f32_bits_le, f32_le};
use crate::process::result::Error;

verus! {

/// A gate position in a polar grid: (azimuth index, gate index).
pub type Gate = (usize, usize);

/// Row-major position of a gate: `azimuth * gate_count + gate`.
pub open spec fn lin(gate_count: int, p: Gate) -> int {
    row_major(gate_count, p.0 as int, p.1 as int)
}

/// Whether a gate lies inside a grid of `az_count` rows and `gate_count` columns.
pub open spec fn in_grid(az_count: int, gate_count: int, p: Gate) -> bool {
    p.0 < az_count && p.1 < gate_count
}

/// The azimuth row before `a`, wrapping from the first row to the last.
pub open spec fn prev_azimuth(az_count: int, a: int) -> int {
    if a == 0 {
        az_count - 1
    } else {
        a - 1
    }
}

/// The azimuth row after `a`, wrapping from the last row to the first.
pub open spec fn next_azimuth(az_count: int, a: int) -> int {
    if a == az_count - 1 {
        0
    } else {
        a + 1
    }
}

/// 4-connectivity of the polar grid: neighbours in azimuth (which wraps
/// around) at the same gate, or neighbours in range (which does not wrap)
/// on the same azimuth.
pub open spec fn adjacent(az_count: int, gate_count: int, p: Gate, q: Gate) -> bool {
    &&& in_grid(az_count, gate_count, p)
    &&& in_grid(az_count, gate_count, q)
    &&& ((q.1 == p.1 && (q.0 == prev_azimuth(az_count, p.0 as int) || q.0 == next_azimuth(
        az_count,
        p.0 as int,
    ))) || (q.0 == p.0 && (q.1 + 1 == p.1 || p.1 + 1 == q.1)))
}

/// Every gate of `c` is in the grid and marked in the mask.
pub open spec fn cells_marked(mask: Seq<bool>, az_count: int, gate_count: int, c: Seq<Gate>) -> bool {
    forall|j: int|
        0 <= j < c.len() ==> in_grid(az_count, gate_count, #[trigger] c[j]) && mask[lin(
            gate_count,
            c[j],
        )]
}

/// Every gate after the first is adjacent to some earlier gate, so the
/// gates of `c` form one connected region.
pub open spec fn spanning(az_count: int, gate_count: int, c: Seq<Gate>) -> bool {
    forall|k: int| 1 <= k < c.len() ==> #[trigger] has_earlier_neighbour(az_count, gate_count, c, k)
}

/// Some gate listed before position `k` of `c` is adjacent to entry `k`.
pub open spec fn has_earlier_neighbour(az_count: int, gate_count: int, c: Seq<Gate>, k: int) -> bool {
    exists|j: int| 0 <= j < k && #[trigger] adjacent(az_count, gate_count, c[j], c[k])
}

/// No marked neighbour of a gate of `c` is missing from `c`.
pub open spec fn closed(mask: Seq<bool>, az_count: int, gate_count: int, c: Seq<Gate>) -> bool {
    forall|j: int, q: Gate|
        0 <= j < c.len() && #[trigger] adjacent(az_count, gate_count, c[j], q) && mask[lin(
            gate_count,
            q,
        )] ==> c.contains(q)
}

/// One connected component of the marked gates.
pub open spec fn is_component(mask: Seq<bool>, az_count: int, gate_count: int, c: Seq<Gate>) -> bool {
    &&& c.len() > 0
    &&& cells_marked(mask, az_count, gate_count, c)
    &&& c.no_duplicates()
    &&& spanning(az_count, gate_count, c)
    &&& closed(mask, az_count, gate_count, c)
}

/// `comps` is the list of connected components of the marked gates: each is
/// a component, no gate is in two of them, every marked gate is in one, and
/// they are listed in row-major order of their first gate, which is the
/// row-major least gate of each.
pub open spec fn is_component_labelling(
    mask: Seq<bool>,
    az_count: int,
    gate_count: int,
    comps: Seq<Seq<Gate>>,
) -> bool {
    &&& forall|k: int|
        0 <= k < comps.len() ==> is_component(mask, az_count, gate_count, #[trigger] comps[k])
    &&& forall|k1: int, k2: int, j1: int, j2: int|
        0 <= k1 < k2 < comps.len() && 0 <= j1 < comps[k1].len() && 0 <= j2 < comps[k2].len()
            ==> #[trigger] comps[k1][j1] != #[trigger] comps[k2][j2]
    &&& forall|p: Gate|
        in_grid(az_count, gate_count, p) && #[trigger] mask[lin(gate_count, p)] ==> exists|k: int|
            0 <= k < comps.len() && #[trigger] comps[k].contains(p)
    &&& forall|k1: int, k2: int|
        0 <= k1 < k2 < comps.len() ==> lin(gate_count, #[trigger] comps[k1][0]) < lin(
            gate_count,
            #[trigger] comps[k2][0],
        )
    &&& forall|k: int, j: int|
        0 <= k < comps.len() && 0 <= j < comps[k].len() ==> lin(gate_count, comps[k][0]) <= lin(
            gate_count,
            #[trigger] comps[k][j],
        )
}

/// The neighbours of a gate in the order the search visits them: previous
/// azimuth, next azimuth, previous gate (if any), next gate (if any).
pub open spec fn neighbour_order(az_count: int, gate_count: int, p: Gate) -> Seq<Gate> {
    seq![(prev_azimuth(az_count, p.0 as int) as usize, p.1), (next_azimuth(az_count, p.0 as int) as usize, p.1)]
        + (if p.1 > 0 {
        seq![(p.0, (p.1 - 1) as usize)]
    } else {
        Seq::empty()
    }) + (if p.1 + 1 < gate_count {
        seq![(p.0, (p.1 + 1) as usize)]
    } else {
        Seq::empty()
    })
}

/// One visit of the search: `q` joins the list when it is marked, was not
/// visited before the search began (`v0`), and is not listed yet.
pub open spec fn visit_step(mask: Seq<bool>, gate_count: int, v0: Seq<bool>, c: Seq<Gate>, q: Gate) -> Seq<
    Gate,
> {
    if mask[lin(gate_count, q)] && !v0[lin(gate_count, q)] && !c.contains(q) {
        c.push(q)
    } else {
        c
    }
}

/// The visits of the candidates in turn.
pub open spec fn visit_all(mask: Seq<bool>, gate_count: int, v0: Seq<bool>, c: Seq<Gate>, cands: Seq<Gate>) -> Seq<
    Gate,
>
    decreases cands.len(),
{
    if cands.len() == 0 {
        c
    } else {
        visit_step(mask, gate_count, v0, visit_all(mask, gate_count, v0, c, cands.drop_last()), cands.last())
    }
}

/// `e[h]` is how many gates were listed when entry `h` of `comp` was taken
/// from the queue: the breadth-first search lists the neighbours of entry `h`
/// (in `neighbour_order`) right after the first `e[h]` entries, and stops
/// when every entry has been taken.
pub open spec fn bfs_frontiers(
    mask: Seq<bool>,
    az_count: int,
    gate_count: int,
    v0: Seq<bool>,
    comp: Seq<Gate>,
    e: Seq<int>,
) -> bool {
    &&& e.len() == comp.len() + 1
    &&& e[0] == 1
    &&& e[comp.len() as int] == comp.len()
    &&& forall|h: int| 0 <= h < comp.len() ==> h < #[trigger] e[h] <= e[h + 1] <= comp.len()
    &&& forall|h: int|
        0 <= h < comp.len() ==> comp.take(#[trigger] e[h + 1]) == visit_all(
            mask,
            gate_count,
            v0,
            comp.take(e[h]),
            neighbour_order(az_count, gate_count, comp[h]),
        )
}

/// `comp` is the breadth-first search of the marked gates from its first
/// entry, over the gates not visited before (`v0`): each entry's unlisted
/// marked neighbours are appended in `neighbour_order`, entries taken first
/// in, first out.
pub open spec fn is_bfs_order(mask: Seq<bool>, az_count: int, gate_count: int, v0: Seq<bool>, comp: Seq<Gate>) -> bool {
    comp.len() >= 1 && exists|e: Seq<int>| bfs_frontiers(mask, az_count, gate_count, v0, comp, e)
}

/// The views of a list of gate lists.
pub open spec fn nested_view(v: Seq<Vec<Gate>>) -> Seq<Seq<Gate>> {
    Seq::new(v.len(), |i: int| v[i]@)
}

/// Number of `true` entries.
pub open spec fn count_true(s: Seq<bool>) -> nat
    decreases s.len(),
{
    if s.len() == 0 {
        0
    } else {
        count_true(s.drop_last()) + if s.last() {
            1nat
        } else {
            0nat
        }
    }
}

proof fn lemma_count_true_le(s: Seq<bool>)
    ensures
        count_true(s) <= s.len(),
    decreases s.len(),
{
    if s.len() > 0 {
        lemma_count_true_le(s.drop_last());
    }
}

proof fn lemma_count_true_set(s: Seq<bool>, i: int)
    requires
        0 <= i < s.len(),
        !s[i],
    ensures
        count_true(s.update(i, true)) == count_true(s) + 1,
    decreases s.len(),
{
    let t = s.update(i, true);
    if i == s.len() - 1 {
        assert(t.drop_last() =~= s.drop_last());
    } else {
        assert(t.drop_last() =~= s.drop_last().update(i, true));
        lemma_count_true_set(s.drop_last(), i);
    }
}

proof fn lemma_lin_in_range(az_count: int, gate_count: int, p: Gate)
    requires
        in_grid(az_count, gate_count, p),
    ensures
        0 <= lin(gate_count, p) < az_count * gate_count,
        p.0 * gate_count <= lin(gate_count, p),
{
    lemma_row_major_bounds(az_count, gate_count, p.0 as int, p.1 as int);
}

proof fn lemma_lin_injective(az_count: int, gate_count: int, p: Gate, q: Gate)
    requires
        in_grid(az_count, gate_count, p),
        in_grid(az_count, gate_count, q),
        lin(gate_count, p) == lin(gate_count, q),
    ensures
        p == q,
{
    lemma_row_major_injective(gate_count, p.0 as int, p.1 as int, q.0 as int, q.1 as int);
}

/// Adjacency is symmetric.
pub proof fn lemma_adjacent_symmetric(az_count: int, gate_count: int, p: Gate, q: Gate)
    requires
        adjacent(az_count, gate_count, p, q),
    ensures
        adjacent(az_count, gate_count, q, p),
{
}

/// Azimuth wraps around the sweep: a gate on the last azimuth row is
/// adjacent to its counterpart at the same range on the first row.
pub proof fn lemma_azimuth_wraps(az_count: int, gate_count: int, gate: usize)
    requires
        0 < az_count <= usize::MAX,
        gate < gate_count,
    ensures
        adjacent(az_count, gate_count, ((az_count - 1) as usize, gate), (0usize, gate)),
        adjacent(az_count, gate_count, (0usize, gate), ((az_count - 1) as usize, gate)),
{
}

/// Invariant of a flood fill that started from the visited set `v0`.
spec fn flood_inv(
    mask: Seq<bool>,
    az_count: int,
    gate_count: int,
    v0: Seq<bool>,
    v: Seq<bool>,
    c: Seq<Gate>,
) -> bool {
    &&& mask.len() == az_count * gate_count
    &&& v0.len() == az_count * gate_count
    &&& v.len() == az_count * gate_count
    &&& cells_marked(mask, az_count, gate_count, c)
    &&& c.no_duplicates()
    &&& forall|j: int| 0 <= j < c.len() ==> !v0[lin(gate_count, #[trigger] c[j])]
    &&& forall|i: int|
        0 <= i < az_count * gate_count ==> (#[trigger] v[i] <==> (v0[i] || exists|j: int|
            0 <= j < c.len() && lin(gate_count, #[trigger] c[j]) == i))
    &&& spanning(az_count, gate_count, c)
}

/// Marks `cell` and appends it to the component when it is marked in the
/// mask and not yet visited.
fn try_visit(
    mask: &Vec<bool>,
    visited: &mut Vec<bool>,
    comp: &mut Vec<Gate>,
    az_count: usize,
    gate_count: usize,
    cell: Gate,
    Ghost(v0): Ghost<Seq<bool>>,
    Ghost(parent): Ghost<int>,
)
    requires
        flood_inv(mask@, az_count as int, gate_count as int, v0, old(visited)@, old(comp)@),
        0 <= parent < old(comp)@.len(),
        adjacent(az_count as int, gate_count as int, old(comp)@[parent], cell),
    ensures
        flood_inv(mask@, az_count as int, gate_count as int, v0, final(visited)@, final(comp)@),
        final(comp)@.len() >= old(comp)@.len(),
        final(comp)@.subrange(0, old(comp)@.len() as int) == old(comp)@,
        forall|q: Gate| old(comp)@.contains(q) ==> final(comp)@.contains(q),
        count_true(final(visited)@) + old(comp)@.len() == count_true(old(visited)@) + final(comp)@.len(),
        mask@[lin(gate_count as int, cell)] ==> final(comp)@.contains(cell) || v0[lin(
            gate_count as int,
            cell,
        )],
        final(comp)@ == visit_step(mask@, gate_count as int, v0, old(comp)@, cell),
{
    let ghost a = az_count as int;
    let ghost g = gate_count as int;
    let ghost c0 = comp@;
    let ghost vis0 = visited@;
    proof {
                lemma_lin_in_range(a, g, cell);
        assert(mask@.len() == mask.len());
        assert(cell.0 * g <= lin(g, cell));
    }
    let idx = cell.0 * gate_count + cell.1;
    if mask[idx] && !visited[idx] {
        proof {
            lemma_count_true_set(visited@, idx as int);
        }
        visited.set(idx, true);
        comp.push(cell);
        proof {
            let c1 = comp@;
            let v1 = visited@;
            assert(c1.subrange(0, c0.len() as int) =~= c0);
            assert(c1[c0.len() as int] == cell);
            assert forall|j: int| 0 <= j < c0.len() implies vis0[lin(g, #[trigger] c0[j])] by {
                lemma_lin_in_range(a, g, c0[j]);
                assert(0 <= j < c0.len() && lin(g, c0[j]) == lin(g, c0[j]));
            }
            assert forall|j: int| 0 <= j < c0.len() implies #[trigger] c0[j] != cell by {
                assert(vis0[lin(g, c0[j])]);
            }
            assert(c1.no_duplicates()) by {
                assert forall|i: int, j: int|
                    0 <= i < c1.len() && 0 <= j < c1.len() && i != j implies c1[i] != c1[j] by {
                    if i < c0.len() && j < c0.len() {
                        assert(c1[i] == c0[i] && c1[j] == c0[j]);
                    } else if i < c0.len() {
                        assert(c1[i] == c0[i]);
                    } else {
                        assert(c1[j] == c0[j]);
                    }
                }
            }
            assert(cells_marked(mask@, a, g, c1)) by {
                assert forall|j: int| 0 <= j < c1.len() implies in_grid(a, g, #[trigger] c1[j])
                    && mask@[lin(g, c1[j])] by {
                    if j < c0.len() {
                        assert(c1[j] == c0[j]);
                    }
                }
            }
            assert forall|j: int| 0 <= j < c1.len() implies !v0[lin(g, #[trigger] c1[j])] by {
                if j < c0.len() {
                    assert(c1[j] == c0[j]);
                }
            }
            assert forall|i: int| 0 <= i < a * g implies (#[trigger] v1[i] <==> (v0[i] || exists|
                j: int,
            | 0 <= j < c1.len() && lin(g, #[trigger] c1[j]) == i)) by {
                if i == idx {
                    assert(lin(g, c1[c0.len() as int]) == i);
                } else {
                    assert(v1[i] == vis0[i]);
                    if vis0[i] && !v0[i] {
                        let j = choose|j: int| 0 <= j < c0.len() && lin(g, #[trigger] c0[j]) == i;
                        assert(c1[j] == c0[j]);
                    }
                    if exists|j: int| 0 <= j < c1.len() && lin(g, #[trigger] c1[j]) == i {
                        let j = choose|j: int| 0 <= j < c1.len() && lin(g, #[trigger] c1[j]) == i;
                        assert(j < c0.len());
                        assert(c1[j] == c0[j]);
                    }
                }
            }
            assert forall|k: int| 1 <= k < c1.len() implies #[trigger] has_earlier_neighbour(a, g, c1, k) by {
                if k < c0.len() {
                    assert(has_earlier_neighbour(a, g, c0, k));
                    let j = choose|j: int| 0 <= j < k && #[trigger] adjacent(a, g, c0[j], c0[k]);
                    assert(c1[j] == c0[j] && c1[k] == c0[k]);
                    assert(0 <= j < k && adjacent(a, g, c1[j], c1[k]));
                } else {
                    assert(c1[parent] == c0[parent]);
                    assert(0 <= parent < k && adjacent(a, g, c1[parent], c1[k]));
                }
            }
            assert(spanning(a, g, c1));
            assert forall|q: Gate| c0.contains(q) implies c1.contains(q) by {
                let j = choose|j: int| 0 <= j < c0.len() && c0[j] == q;
                assert(c1[j] == q);
            }
            assert(c1.contains(cell)) by {
                assert(c1[c0.len() as int] == cell);
            }
        }
    } else {
        proof {
            assert(comp@.subrange(0, c0.len() as int) =~= c0);
            if mask@[idx as int] {
                if !v0[idx as int] {
                    let j = choose|j: int| 0 <= j < c0.len() && lin(g, #[trigger] c0[j]) == idx;
                    lemma_lin_in_range(a, g, c0[j]);
                    lemma_lin_injective(a, g, c0[j], cell);
                }
            }
        }
    }
}

/// Visiting the neighbours of `p` one at a time, in `neighbour_order`, is
/// visiting them all.
proof fn lemma_visit_neighbours(
    mask: Seq<bool>,
    az_count: int,
    gate_count: int,
    v0: Seq<bool>,
    p: Gate,
    c0: Seq<Gate>,
    c2: Seq<Gate>,
    c3: Seq<Gate>,
    c4: Seq<Gate>,
    c5: Seq<Gate>,
)
    requires
        c2 == visit_step(mask, gate_count, v0, c0, (prev_azimuth(az_count, p.0 as int) as usize, p.1)),
        c3 == visit_step(mask, gate_count, v0, c2, (next_azimuth(az_count, p.0 as int) as usize, p.1)),
        c4 == if p.1 > 0 {
            visit_step(mask, gate_count, v0, c3, (p.0, (p.1 - 1) as usize))
        } else {
            c3
        },
        c5 == if p.1 + 1 < gate_count {
            visit_step(mask, gate_count, v0, c4, (p.0, (p.1 + 1) as usize))
        } else {
            c4
        },
    ensures
        c5 == visit_all(mask, gate_count, v0, c0, neighbour_order(az_count, gate_count, p)),
{
    let n = neighbour_order(az_count, gate_count, p);
    let p0 = (prev_azimuth(az_count, p.0 as int) as usize, p.1);
    let p1 = (next_azimuth(az_count, p.0 as int) as usize, p.1);
    let one = seq![p0];
    let two = seq![p0, p1];
    assert(one.drop_last() =~= Seq::<Gate>::empty());
    assert(visit_all(mask, gate_count, v0, c0, Seq::<Gate>::empty()) == c0);
    assert(visit_all(mask, gate_count, v0, c0, one) == c2);
    assert(two.drop_last() =~= one);
    assert(visit_all(mask, gate_count, v0, c0, two) == c3);
    if p.1 > 0 {
        let three = two.push((p.0, (p.1 - 1) as usize));
        assert(three.drop_last() =~= two);
        assert(visit_all(mask, gate_count, v0, c0, three) == c4);
        if p.1 + 1 < gate_count {
            let four = three.push((p.0, (p.1 + 1) as usize));
            assert(four.drop_last() =~= three);
            assert(n =~= four);
        } else {
            assert(n =~= three);
        }
    } else {
        if p.1 + 1 < gate_count {
            let three = two.push((p.0, (p.1 + 1) as usize));
            assert(three.drop_last() =~= two);
            assert(n =~= three);
        } else {
            assert(n =~= two);
        }
    }
}

/// Visits the four neighbours of entry `head` of the component.
fn expand(
    mask: &Vec<bool>,
    visited: &mut Vec<bool>,
    comp: &mut Vec<Gate>,
    az_count: usize,
    gate_count: usize,
    head: usize,
    Ghost(v0): Ghost<Seq<bool>>,
)
    requires
        flood_inv(mask@, az_count as int, gate_count as int, v0, old(visited)@, old(comp)@),
        head < old(comp)@.len(),
    ensures
        flood_inv(mask@, az_count as int, gate_count as int, v0, final(visited)@, final(comp)@),
        final(comp)@.len() >= old(comp)@.len(),
        final(comp)@.subrange(0, old(comp)@.len() as int) == old(comp)@,
        forall|q: Gate| old(comp)@.contains(q) ==> final(comp)@.contains(q),
        count_true(final(visited)@) + old(comp)@.len() == count_true(old(visited)@) + final(comp)@.len(),
        forall|q: Gate|
            #[trigger] adjacent(az_count as int, gate_count as int, old(comp)@[head as int], q)
                && mask@[lin(gate_count as int, q)] ==> final(comp)@.contains(q) || v0[lin(
                gate_count as int,
                q,
            )],
        final(comp)@ == visit_all(
            mask@,
            gate_count as int,
            v0,
            old(comp)@,
            neighbour_order(az_count as int, gate_count as int, old(comp)@[head as int]),
        ),
{
    let ghost a = az_count as int;
    let ghost g = gate_count as int;
    let ghost c0 = comp@;
    let cell = comp[head];
    let (az, gate) = cell;
    proof {
        assert(in_grid(a, g, c0[head as int]));
    }
    let az_prev = if az == 0 {
        az_count - 1
    } else {
        az - 1
    };
    let az_next = if az == az_count - 1 {
        0
    } else {
        az + 1
    };
    try_visit(mask, visited, comp, az_count, gate_count, (az_prev, gate), Ghost(v0), Ghost(head as int));
    let ghost c2 = comp@;
    proof {
        assert(c2[head as int] == c0[head as int]);
    }
    try_visit(mask, visited, comp, az_count, gate_count, (az_next, gate), Ghost(v0), Ghost(head as int));
    let ghost c3 = comp@;
    proof {
        assert(c3[head as int] == c0[head as int]);
        assert(c3.subrange(0, c0.len() as int) =~= c0);
    }
    if gate > 0 {
        try_visit(mask, visited, comp, az_count, gate_count, (az, gate - 1), Ghost(v0), Ghost(head as int));
    }
    let ghost c4 = comp@;
    proof {
        assert(c4[head as int] == c0[head as int]);
        assert(c4.subrange(0, c0.len() as int) =~= c0);
    }
    if gate + 1 < gate_count {
        try_visit(mask, visited, comp, az_count, gate_count, (az, gate + 1), Ghost(v0), Ghost(head as int));
    }
    proof {
        let c5 = comp@;
        lemma_visit_neighbours(mask@, a, g, v0, cell, c0, c2, c3, c4, c5);
        assert(c5.subrange(0, c0.len() as int) =~= c0);
        assert forall|q: Gate|
            #[trigger] adjacent(a, g, c0[head as int], q) && mask@[lin(g, q)]
                implies c5.contains(q) || v0[lin(g, q)] by {
            if q == (az_prev, gate) {
            } else if q == (az_next, gate) {
            } else if gate > 0 && q == (az, (gate - 1) as usize) {
            } else {
                assert(q == (az, (gate + 1) as usize));
            }
        }
    }
}

/// Breadth-first flood fill of the marked, unvisited gates reachable from
/// `seed`; every gate it reaches is marked visited.
fn flood_fill(mask: &Vec<bool>, visited: &mut Vec<bool>, az_count: usize, gate_count: usize, seed: Gate) -> (comp: Vec<Gate>)
    requires
        mask@.len() == az_count * gate_count,
        old(visited)@.len() == az_count * gate_count,
        in_grid(az_count as int, gate_count as int, seed),
        mask@[lin(gate_count as int, seed)],
        !old(visited)@[lin(gate_count as int, seed)],
    ensures
        flood_inv(
            mask@,
            az_count as int,
            gate_count as int,
            old(visited)@,
            final(visited)@,
            comp@,
        ),
        comp@.len() >= 1,
        comp@[0] == seed,
        is_bfs_order(mask@, az_count as int, gate_count as int, old(visited)@, comp@),
        forall|j: int, q: Gate|
            0 <= j < comp@.len() && #[trigger] adjacent(az_count as int, gate_count as int, comp@[j], q)
                && mask@[lin(gate_count as int, q)] ==> comp@.contains(q) || old(visited)@[lin(
                gate_count as int,
                q,
            )],
{
    let ghost a = az_count as int;
    let ghost g = gate_count as int;
    let ghost v0 = visited@;
    proof {
        lemma_lin_in_range(a, g, seed);
        lemma_count_true_set(visited@, lin(g, seed));
    }
    proof {
        assert(mask@.len() == mask.len());
        assert(seed.0 * g <= lin(g, seed));
    }
    let seed_idx = seed.0 * gate_count + seed.1;
    visited.set(seed_idx, true);
    let mut comp: Vec<Gate> = Vec::new();
    comp.push(seed);
    proof {
        let c = comp@;
        assert(c.len() == 1 && c[0] == seed);
        assert forall|i: int| 0 <= i < a * g implies (#[trigger] visited@[i] <==> (v0[i] || exists|
            j: int,
        | 0 <= j < c.len() && lin(g, #[trigger] c[j]) == i)) by {
            if i == seed_idx {
                assert(lin(g, c[0]) == i);
            }
        }
        lemma_count_true_le(visited@);
            }
    let mut head: usize = 0;
    let ghost mut e: Seq<int> = seq![1int];
    while head < comp.len()
        invariant
            e.len() == head + 1,
            e[0] == 1,
            e[head as int] == comp@.len(),
            forall|h: int| 0 <= h < head ==> h < #[trigger] e[h] <= e[h + 1] <= comp@.len(),
            forall|h: int|
                0 <= h < head ==> comp@.take(#[trigger] e[h + 1]) == visit_all(
                    mask@,
                    g,
                    v0,
                    comp@.take(e[h]),
                    neighbour_order(a, g, comp@[h]),
                ),
            flood_inv(mask@, a, g, v0, visited@, comp@),
            a == az_count,
            g == gate_count,
            head <= comp@.len(),
            comp@.len() >= 1,
            comp@[0] == seed,
            forall|j: int, q: Gate|
                0 <= j < head && #[trigger] adjacent(a, g, comp@[j], q) && mask@[lin(g, q)]
                    ==> comp@.contains(q) || v0[lin(g, q)],
            count_true(visited@) <= a * g,
        decreases (a * g - count_true(visited@)) + (comp@.len() - head),
    {
        let ghost c_before = comp@;
        expand(mask, visited, &mut comp, az_count, gate_count, head, Ghost(v0));
        proof {
            let c5 = comp@;
            assert forall|j: int, q: Gate|
                0 <= j < head + 1 && #[trigger] adjacent(a, g, c5[j], q) && mask@[lin(g, q)]
                    implies c5.contains(q) || v0[lin(g, q)] by {
                assert(c5[j] == c_before[j]);
            }
            lemma_count_true_le(visited@);
        }
        proof {
            let c6 = comp@;
            let e2 = e.push(c6.len() as int);
            assert forall|h: int| 0 <= h < head + 1 implies h < #[trigger] e2[h] <= e2[h + 1] <= c6.len() by {}
            assert forall|h: int|
                0 <= h < head + 1 implies c6.take(#[trigger] e2[h + 1]) == visit_all(
                    mask@,
                    g,
                    v0,
                    c6.take(e2[h]),
                    neighbour_order(a, g, c6[h]),
                ) by {
                assert(c6[h] == c_before[h]);
                if h < head {
                    assert(c6.take(e[h + 1]) =~= c_before.take(e[h + 1]));
                    assert(c6.take(e[h]) =~= c_before.take(e[h]));
                } else {
                    assert(c6.take(e2[h + 1]) =~= c6);
                    assert(c6.take(e[h]) =~= c_before);
                }
            }
            e = e2;
        }
        head = head + 1;
    }
    proof {
        assert(bfs_frontiers(mask@, a, g, v0, comp@, e));
    }
    comp
}

} // verus!

verus! {

/// Some component of `comps` holds a gate whose row-major position is `i`.
pub open spec fn labelled(comps: Seq<Seq<Gate>>, gate_count: int, i: int) -> bool {
    exists|k: int, j: int|
        0 <= k < comps.len() && 0 <= j < comps[k].len() && lin(gate_count, #[trigger] comps[k][j])
            == i
}

/// For each row-major position of the grid, whether a component of `comps`
/// holds its gate.
pub open spec fn labelled_gates(comps: Seq<Seq<Gate>>, az_count: int, gate_count: int) -> Seq<bool> {
    Seq::new((az_count * gate_count) as nat, |i: int| labelled(comps, gate_count, i))
}

/// Each component is the breadth-first search from its first gate over the
/// gates that the components before it left unlabelled.
pub open spec fn is_bfs_labelling(mask: Seq<bool>, az_count: int, gate_count: int, comps: Seq<Seq<Gate>>) -> bool {
    forall|k: int|
        0 <= k < comps.len() ==> is_bfs_order(
            mask,
            az_count,
            gate_count,
            labelled_gates(comps.take(k), az_count, gate_count),
            #[trigger] comps[k],
        )
}

/// Invariant of the row-major scan over the grid after its first `idx` gates.
spec fn scan_inv(
    mask: Seq<bool>,
    az_count: int,
    gate_count: int,
    visited: Seq<bool>,
    comps: Seq<Seq<Gate>>,
    idx: int,
) -> bool {
    &&& mask.len() == az_count * gate_count
    &&& visited.len() == az_count * gate_count
    &&& 0 <= idx <= az_count * gate_count
    &&& forall|i: int|
        0 <= i < az_count * gate_count ==> (#[trigger] visited[i] <==> labelled(
            comps,
            gate_count,
            i,
        ))
    &&& forall|k: int|
        0 <= k < comps.len() ==> is_component(mask, az_count, gate_count, #[trigger] comps[k])
    &&& forall|k1: int, k2: int, j1: int, j2: int|
        0 <= k1 < k2 < comps.len() && 0 <= j1 < comps[k1].len() && 0 <= j2 < comps[k2].len()
            ==> #[trigger] comps[k1][j1] != #[trigger] comps[k2][j2]
    &&& forall|i: int| 0 <= i < idx && #[trigger] mask[i] ==> visited[i]
    &&& forall|k: int| 0 <= k < comps.len() ==> lin(gate_count, #[trigger] comps[k][0]) < idx
    &&& forall|k1: int, k2: int|
        0 <= k1 < k2 < comps.len() ==> lin(gate_count, #[trigger] comps[k1][0]) < lin(
            gate_count,
            #[trigger] comps[k2][0],
        )
    &&& forall|k: int, j: int|
        0 <= k < comps.len() && 0 <= j < comps[k].len() ==> lin(gate_count, comps[k][0]) <= lin(
            gate_count,
            #[trigger] comps[k][j],
        )
}

/// Appending the component found from the seed at row-major position `idx`
/// keeps the scan invariant, now over the first `idx + 1` gates.
proof fn lemma_scan_step_new(
    mask: Seq<bool>,
    az_count: int,
    gate_count: int,
    v: Seq<bool>,
    v1: Seq<bool>,
    comps: Seq<Seq<Gate>>,
    c: Seq<Gate>,
    idx: int,
    seed: Gate,
)
    requires
        scan_inv(mask, az_count, gate_count, v, comps, idx),
        idx < az_count * gate_count,
        in_grid(az_count, gate_count, seed),
        lin(gate_count, seed) == idx,
        flood_inv(mask, az_count, gate_count, v, v1, c),
        c.len() >= 1,
        c[0] == seed,
        forall|j: int, q: Gate|
            0 <= j < c.len() && #[trigger] adjacent(az_count, gate_count, c[j], q) && mask[lin(
                gate_count,
                q,
            )] ==> c.contains(q) || v[lin(gate_count, q)],
    ensures
        scan_inv(mask, az_count, gate_count, v1, comps.push(c), idx + 1),
{
    let a = az_count;
    let g = gate_count;
    let cs = comps.push(c);
    let n = comps.len() as int;
    assert(cs[n] == c);
    assert forall|k: int| 0 <= k < n implies #[trigger] cs[k] == comps[k] by {}
    // the visited set is the set of labelled gates
    assert forall|i: int| 0 <= i < a * g implies (#[trigger] v1[i] <==> labelled(cs, g, i)) by {
        if v1[i] {
            if v[i] {
                let (k, j) = choose|k: int, j: int|
                    0 <= k < comps.len() && 0 <= j < comps[k].len() && lin(g, #[trigger] comps[k][j])
                        == i;
                assert(cs[k][j] == comps[k][j]);
            } else {
                let j = choose|j: int| 0 <= j < c.len() && lin(g, #[trigger] c[j]) == i;
                assert(cs[n][j] == c[j]);
            }
        }
        if labelled(cs, g, i) {
            let (k, j) = choose|k: int, j: int|
                0 <= k < cs.len() && 0 <= j < cs[k].len() && lin(g, #[trigger] cs[k][j]) == i;
            if k < n {
                assert(cs[k][j] == comps[k][j]);
                assert(labelled(comps, g, i));
            } else {
                assert(cs[k][j] == c[j]);
                assert(0 <= j < c.len() && lin(g, c[j]) == i);
            }
        }
    }
    // gates of the new component were not visited before
    assert forall|j: int| 0 <= j < c.len() implies !v[lin(g, #[trigger] c[j])] && in_grid(a, g, c[j])
        && mask[lin(g, c[j])] by {}
    // the new component is closed
    assert forall|j: int, q: Gate|
        0 <= j < c.len() && #[trigger] adjacent(a, g, c[j], q) && mask[lin(g, q)] implies c.contains(
        q,
    ) by {
        if !c.contains(q) {
            assert(v[lin(g, q)]);
            lemma_lin_in_range(a, g, q);
            let (k, j2) = choose|k: int, j2: int|
                0 <= k < comps.len() && 0 <= j2 < comps[k].len() && lin(g, #[trigger] comps[k][j2])
                    == lin(g, q);
            assert(is_component(mask, a, g, comps[k]));
            assert(in_grid(a, g, comps[k][j2]));
            lemma_lin_injective(a, g, comps[k][j2], q);
            lemma_adjacent_symmetric(a, g, c[j], q);
            assert(adjacent(a, g, comps[k][j2], c[j]));
            assert(comps[k].contains(c[j]));
            let j3 = choose|j3: int| 0 <= j3 < comps[k].len() && comps[k][j3] == c[j];
            lemma_lin_in_range(a, g, c[j]);
            assert(lin(g, comps[k][j3]) == lin(g, c[j]));
            assert(labelled(comps, g, lin(g, c[j])));
            assert(v[lin(g, c[j])]);
        }
    }
    assert(is_component(mask, a, g, c));
    assert forall|k: int| 0 <= k < cs.len() implies is_component(mask, a, g, #[trigger] cs[k]) by {
        if k < n {
            assert(cs[k] == comps[k]);
        }
    }
    // disjointness
    assert forall|k1: int, k2: int, j1: int, j2: int|
        0 <= k1 < k2 < cs.len() && 0 <= j1 < cs[k1].len() && 0 <= j2 < cs[k2].len()
            implies #[trigger] cs[k1][j1] != #[trigger] cs[k2][j2] by {
        assert(cs[k1] == comps[k1]);
        if k2 < n {
            assert(cs[k2] == comps[k2]);
        } else {
            assert(cs[k2] == c);
            let p = comps[k1][j1];
            assert(is_component(mask, a, g, comps[k1]));
            assert(in_grid(a, g, p));
            lemma_lin_in_range(a, g, p);
            assert(labelled(comps, g, lin(g, p)));
            assert(v[lin(g, p)]);
            assert(!v[lin(g, c[j2])]);
        }
    }
    // every marked gate before idx + 1 is visited
    assert forall|i: int| 0 <= i < idx + 1 && #[trigger] mask[i] implies v1[i] by {
        if i < idx {
            assert(v[i]);
        } else {
            assert(lin(g, c[0]) == i);
        }
    }
    // first gates are ordered and least in their components
    assert forall|k: int| 0 <= k < cs.len() implies lin(g, #[trigger] cs[k][0]) < idx + 1 by {
        if k < n {
            assert(cs[k] == comps[k]);
        }
    }
    assert forall|k1: int, k2: int| 0 <= k1 < k2 < cs.len() implies lin(g, #[trigger] cs[k1][0])
        < lin(g, #[trigger] cs[k2][0]) by {
        assert(cs[k1] == comps[k1]);
        if k2 < n {
            assert(cs[k2] == comps[k2]);
        }
    }
    assert forall|k: int, j: int| 0 <= k < cs.len() && 0 <= j < cs[k].len() implies lin(
        g,
        cs[k][0],
    ) <= lin(g, #[trigger] cs[k][j]) by {
        if k < n {
            assert(cs[k] == comps[k]);
        } else {
            assert(cs[k] == c);
            let p = c[j];
            lemma_lin_in_range(a, g, p);
            if lin(g, p) < idx {
                assert(mask[lin(g, p)]);
                assert(v[lin(g, p)]);
            }
        }
    }
}

/// Labels the connected components of the marked gates of a polar grid of
/// `az_count` azimuths by `gate_count` gates, stored row-major in `mask`.
///
/// Gates are connected when adjacent in azimuth (wrapping from the last
/// azimuth to the first) or in range (without wrapping). Components are
/// found by scanning the grid in row-major order and flood-filling from each
/// marked gate not yet assigned, so they come out ordered by their first
/// gate.
pub fn label_components(mask: &Vec<bool>, az_count: usize, gate_count: usize) -> (comps: Vec<Vec<Gate>>)
    requires
        mask@.len() == az_count * gate_count,
    ensures
        is_component_labelling(mask@, az_count as int, gate_count as int, nested_view(comps@)),
        is_bfs_labelling(mask@, az_count as int, gate_count as int, nested_view(comps@)),
{
    let ghost a = az_count as int;
    let ghost g = gate_count as int;
    proof {
        assert(mask@.len() == mask.len());
    }
    let total = az_count * gate_count;
    let mut visited: Vec<bool> = Vec::new();
    let mut t: usize = 0;
    while t < total
        invariant
            t <= total,
            total == a * g,
            visited@.len() == t,
            forall|i: int| 0 <= i < t ==> !#[trigger] visited@[i],
        decreases total - t,
    {
        visited.push(false);
        t = t + 1;
    }
    let mut comps: Vec<Vec<Gate>> = Vec::new();
    let mut idx: usize = 0;
    let mut az: usize = 0;
    let mut gate: usize = 0;
    proof {
        lemma_row_major_next_row(g, 0);
        assert(lin(g, (az, gate)) == 0);
        assert(nested_view(comps@) =~= Seq::<Seq<Gate>>::empty());
        assert forall|i: int| 0 <= i < a * g implies (#[trigger] visited@[i] <==> labelled(
            nested_view(comps@),
            g,
            i,
        )) by {}
    }
    while idx < total
        invariant
            total == a * g,
            a == az_count,
            g == gate_count,
            scan_inv(mask@, a, g, visited@, nested_view(comps@), idx as int),
            is_bfs_labelling(mask@, a, g, nested_view(comps@)),
            idx < total ==> in_grid(a, g, (az, gate)),
            idx < total ==> lin(g, (az, gate)) == idx,
        decreases total - idx,
    {
        let ghost cs = nested_view(comps@);
        let ghost v = visited@;
        if mask[idx] && !visited[idx] {
            let comp = flood_fill(mask, &mut visited, az_count, gate_count, (az, gate));
            let ghost c = comp@;
            comps.push(comp);
            proof {
                assert(nested_view(comps@) =~= cs.push(c));
                lemma_scan_step_new(mask@, a, g, v, visited@, cs, c, idx as int, (az, gate));
                let cs2 = cs.push(c);
                assert(v =~= labelled_gates(cs, a, g));
                assert forall|k: int| 0 <= k < cs2.len() implies is_bfs_order(
                    mask@,
                    a,
                    g,
                    labelled_gates(cs2.take(k), a, g),
                    #[trigger] cs2[k],
                ) by {
                    if k < cs.len() {
                        assert(cs2.take(k) =~= cs.take(k));
                    } else {
                        assert(cs2.take(k) =~= cs);
                    }
                }
            }
        } else {
            proof {
                assert forall|i: int| 0 <= i < idx + 1 && #[trigger] mask@[i] implies visited@[i] by {
                }
                assert forall|k: int| 0 <= k < cs.len() implies lin(g, #[trigger] cs[k][0]) < idx + 1 by {
                }
            }
        }
        proof {
            lemma_row_major_next_row(g, az as int);
        }
        if gate + 1 < gate_count {
            gate = gate + 1;
        } else {
            gate = 0;
            az = az + 1;
        }
        idx = idx + 1;
        proof {
            if idx < total {
                if gate == 0 {
                    assert(az * g <= idx);
                    if az >= a {
                        lemma_row_major_past_end(a, g, az as int);
                    }
                }
            }
        }
    }
    proof {
        let cs = nested_view(comps@);
        assert forall|p: Gate|
            in_grid(a, g, p) && #[trigger] mask@[lin(g, p)] implies exists|k: int|
                0 <= k < cs.len() && #[trigger] cs[k].contains(p) by {
            lemma_lin_in_range(a, g, p);
            assert(visited@[lin(g, p)]);
            let (k, j) = choose|k: int, j: int|
                0 <= k < cs.len() && 0 <= j < cs[k].len() && lin(g, #[trigger] cs[k][j]) == lin(g, p);
            assert(is_component(mask@, a, g, cs[k]));
            assert(in_grid(a, g, cs[k][j]));
            lemma_lin_injective(a, g, cs[k][j], p);
            assert(cs[k].contains(p));
        }
    }
    comps
}

} // verus!

verus! {

/// The components with at least `min_gate_count` gates, in their order.
pub open spec fn large_components(comps: Seq<Seq<Gate>>, min_gate_count: nat) -> Seq<Seq<Gate>> {
    comps.filter(|c: Seq<Gate>| c.len() >= min_gate_count)
}

/// A copy of a list of gates.
fn copy_gates(v: &Vec<Gate>) -> (r: Vec<Gate>)
    ensures
        r@ == v@,
{
    let mut r: Vec<Gate> = Vec::new();
    let mut i: usize = 0;
    while i < v.len()
        invariant
            i <= v@.len(),
            r@ == v@.take(i as int),
        decreases v@.len() - i,
    {
        r.push(v[i]);
        i = i + 1;
        assert(r@ =~= v@.take(i as int));
    }
    assert(v@.take(i as int) =~= v@);
    r
}

/// Keeps the components with at least `min_gate_count` gates.
pub fn retain_large_components(comps: Vec<Vec<Gate>>, min_gate_count: usize) -> (r: Vec<Vec<Gate>>)
    ensures
        nested_view(r@) == large_components(nested_view(comps@), min_gate_count as nat),
{
    let ghost all = nested_view(comps@);
    let ghost pred = |c: Seq<Gate>| c.len() >= min_gate_count as nat;
    let mut out: Vec<Vec<Gate>> = Vec::new();
    let mut i: usize = 0;
    let n = comps.len();
    proof {
        assert(all.take(0) =~= Seq::<Seq<Gate>>::empty());
        reveal(Seq::filter);
        assert(nested_view(out@) =~= all.take(0).filter(pred));
    }
    while i < n
        invariant
            n == comps@.len(),
            all == nested_view(comps@),
            i <= n,
            nested_view(out@) == all.take(i as int).filter(pred),
            pred == (|c: Seq<Gate>| c.len() >= min_gate_count as nat),
        decreases n - i,
    {
        let ghost before = nested_view(out@);
        assert(all.take(i + 1) =~= all.take(i as int).push(all[i as int]));
        proof {
            all.take(i as int).lemma_filter_push(all[i as int], pred);
        }
        if comps[i].len() >= min_gate_count {
            let c = copy_gates(&comps[i]);
            out.push(c);
            proof {
                assert(nested_view(out@) =~= before.push(all[i as int]));
            }
        } else {
            proof {
                assert(!pred(all[i as int]));
            }
        }
        i = i + 1;
    }
    proof {
        assert(all.take(n as int) =~= all);
    }
    out
}

/// Detects storm cells by connected-component labelling on a polar grid of
/// reflectivity gates.
///
/// A gate takes part when its status is valid and its value is at or above
/// the reflectivity threshold; the application layer evaluates that test and
/// hands the result over as a row-major mask. Regions of fewer than
/// `min_gate_count` gates are discarded as noise.
pub struct StormCellDetector {
    /// Minimum reflectivity (dBZ) for a gate to be included in a cell, as the
    /// IEEE-754 bit pattern of an `f32`.
    reflectivity_threshold_dbz_bits: u32,
    /// Minimum number of gates for a component to be retained as a cell.
    min_gate_count: usize,
}

impl StormCellDetector {
    /// The reflectivity threshold bit pattern of a detector.
    pub closed spec fn threshold_bits(self) -> u32 {
        self.reflectivity_threshold_dbz_bits
    }

    /// The minimum cell size of a detector.
    pub closed spec fn min_gates(self) -> usize {
        self.min_gate_count
    }

    /// Creates a detector; the threshold is given as the bit pattern of an `f32`.
    ///
    /// Fails with `InvalidParameter` when `min_gate_count` is zero.
    pub fn new(reflectivity_threshold_dbz_bits: u32, min_gate_count: usize) -> (r: Result<Self, Error>)
        ensures
            min_gate_count == 0 <==> r is Err,
            r matches Err(e) ==> e matches Error::InvalidParameter(m) && m@
                == "min_gate_count must be >= 1"@,
            r matches Ok(d) ==> d.threshold_bits() == reflectivity_threshold_dbz_bits
                && d.min_gates() == min_gate_count,
    {
        if min_gate_count == 0 {
            return Err(Error::InvalidParameter("min_gate_count must be >= 1".to_owned()));
        }
        Ok(StormCellDetector { reflectivity_threshold_dbz_bits, min_gate_count })
    }

    /// The reflectivity threshold as the bit pattern of an `f32`.
    pub fn reflectivity_threshold_dbz_bits(&self) -> (r: u32)
        ensures
            r == self.threshold_bits(),
    {
        self.reflectivity_threshold_dbz_bits
    }

    /// The minimum number of gates of a retained cell.
    pub fn min_gate_count(&self) -> (r: usize)
        ensures
            r == self.min_gates(),
    {
        self.min_gate_count
    }

    /// Regions of gates forming storm cells: the connected components of the
    /// marked gates that have at least `min_gate_count` gates, in row-major
    /// order of their first gate, each listed in breadth-first order from
    /// that gate.
    ///
    /// Fails with `InvalidGeometry` when the grid has no azimuths or no gates.
    pub fn mask_components(
        &self,
        above_threshold: &Vec<bool>,
        az_count: usize,
        gate_count: usize,
    ) -> (r: Result<Vec<Vec<Gate>>, Error>)
        requires
            above_threshold@.len() == az_count * gate_count,
        ensures
            az_count == 0 ==> (r matches Err(Error::InvalidGeometry(m)) && m@
                == "field has zero azimuths"@),
            az_count != 0 && gate_count == 0 ==> (r matches Err(Error::InvalidGeometry(m)) && m@
                == "field has zero gates"@),
            az_count != 0 && gate_count != 0 ==> (r matches Ok(cells) && exists|all: Seq<Seq<Gate>>|
                is_component_labelling(above_threshold@, az_count as int, gate_count as int, all)
                    && is_bfs_labelling(above_threshold@, az_count as int, gate_count as int, all)
                    && nested_view(cells@) == large_components(all, self.min_gates() as nat)),
    {
        if az_count == 0 {
            return Err(Error::InvalidGeometry("field has zero azimuths".to_owned()));
        }
        if gate_count == 0 {
            return Err(Error::InvalidGeometry("field has zero gates".to_owned()));
        }
        let comps = label_components(above_threshold, az_count, gate_count);
        let ghost all = nested_view(comps@);
        let cells = retain_large_components(comps, self.min_gate_count);
        proof {
            assert(is_component_labelling(above_threshold@, az_count as int, gate_count as int, all)
                && is_bfs_labelling(above_threshold@, az_count as int, gate_count as int, all)
                && nested_view(cells@) == large_components(all, self.min_gates() as nat));
        }
        Ok(cells)
    }

    /// The gates that may belong to a cell: valid, with a value at or above
    /// the threshold by `f32` comparison; row-major.
    pub open spec fn above_threshold(self, field: SweepField) -> Seq<bool> {
        Seq::new(
            field.spec_values().len(),
            |i: int|
                field.spec_status()[i] == GateStatus::Valid && f32_le(
                    self.threshold_bits(),
                    field.spec_values()[i],
                ),
        )
    }

    /// The mask of `above_threshold`, computed.
    pub fn threshold_mask(&self, field: &SweepField) -> (r: Vec<bool>)
        ensures
            r@ == self.above_threshold(*field),
    {
        proof {
            use_type_invariant(field);
        }
        let values = field.values();
        let statuses = field.statuses();
        let mut mask: Vec<bool> = Vec::new();
        let mut i: usize = 0;
        while i < values.len()
            invariant
                values@ == field.spec_values(),
                statuses@ == field.spec_status(),
                field.wf(),
                i <= values@.len(),
                mask@ =~= self.above_threshold(*field).take(i as int),
            decreases values@.len() - i,
        {
            let valid = match statuses[i] {
                GateStatus::Valid => true,
                _ => false,
            };
            mask.push(valid && f32_bits_le(self.reflectivity_threshold_dbz_bits, values[i]));
            i = i + 1;
        }
        mask
    }

    /// Regions of gates of a reflectivity field forming storm cells: the
    /// connected components of `above_threshold` (four-connected, azimuth
    /// wrapping around) with at least `min_gate_count` gates, in row-major
    /// order of their first gate, each listed in breadth-first order from
    /// that gate.
    ///
    /// Fails with `InvalidGeometry` when the field has no azimuths or no gates.
    pub fn detect_components(&self, field: &SweepField) -> (r: Result<Vec<Vec<Gate>>, Error>)
        ensures
            field.spec_azimuths().len() == 0 ==> (r matches Err(Error::InvalidGeometry(m)) && m@
                == "field has zero azimuths"@),
            field.spec_azimuths().len() != 0 && field.spec_gate_count() == 0 ==> (r matches Err(
                Error::InvalidGeometry(m),
            ) && m@ == "field has zero gates"@),
            field.spec_azimuths().len() != 0 && field.spec_gate_count() != 0 ==> (r matches Ok(cells)
                && exists|all: Seq<Seq<Gate>>|
                is_component_labelling(
                    self.above_threshold(*field),
                    field.spec_azimuths().len() as int,
                    field.spec_gate_count() as int,
                    all,
                ) && is_bfs_labelling(
                    self.above_threshold(*field),
                    field.spec_azimuths().len() as int,
                    field.spec_gate_count() as int,
                    all,
                ) && nested_view(cells@) == large_components(all, self.min_gates() as nat)),
    {
        proof {
            use_type_invariant(field);
        }
        let mask = self.threshold_mask(field);
        self.mask_components(&mask, field.azimuth_count(), field.gate_count())
    }
}

} // verus!
