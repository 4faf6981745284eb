//! Layout of a sweep field: which radials become its rows, in what order, and
//! the status of every gate.
use vstd::prelude::*;
use crate::model::data::gate_status::GateStatus;
use crate::model::data::moment::{cfp_code, CFPMomentCode, MomentCode, MomentDataBlock};
use crate::model::data::product::Product;
use crate::model::data::radial::Radial;
use crate::model::float_order::{f32_key, f32_order_key};
use crate::model::sorting::{lemma_insert_stable, lemma_stable_sorted_empty, stable_sorted_by_key};

verus! {

/// Whether a radial carries data for a product.
pub open spec fn has_product(p: Product, r: Radial) -> bool {
    p.moment_in(r) is Some || p.cfp_in(r) is Some
}

/// The indices of the radials that carry data for a product, ascending.
pub open spec fn product_indices(radials: Seq<Radial>, p: Product) -> Seq<usize>
    decreases radials.len(),
{
    if radials.len() == 0 {
        Seq::empty()
    } else {
        let prev = product_indices(radials.drop_last(), p);
        if has_product(p, radials.last()) {
            prev.push((radials.len() - 1) as usize)
        } else {
            prev
        }
    }
}

/// The encoded block of a product in a radial: its standard moment, else its
/// clutter filter power moment.
pub open spec fn product_block(p: Product, r: Radial) -> Option<MomentDataBlock> {
    match p.moment_in(r) {
        Some(m) => Some(m.block()),
        None => match p.cfp_in(r) {
            Some(c) => Some(c.block()),
            None => None,
        },
    }
}

/// The sort key of the radial at an index: its azimuth.
pub open spec fn row_key(radials: Seq<Radial>) -> spec_fn(usize) -> int {
    |i: usize| f32_key(radials[i as int].spec_azimuth_angle_bits())
}

/// The status of a gate of a standard moment.
pub open spec fn code_status(c: MomentCode) -> GateStatus {
    match c {
        MomentCode::Scaled(_) => GateStatus::Valid,
        MomentCode::Unscaled(_) => GateStatus::Valid,
        MomentCode::BelowThreshold => GateStatus::BelowThreshold,
        MomentCode::RangeFolded => GateStatus::RangeFolded,
    }
}

/// The status of a gate of a clutter filter power moment: status codes carry
/// no data.
pub open spec fn cfp_status(c: CFPMomentCode) -> GateStatus {
    match c {
        CFPMomentCode::Status(_) => GateStatus::NoData,
        _ => GateStatus::Valid,
    }
}

/// The status of gate `g` of a radial for a product; gates that the moment
/// does not provide have no data.
pub open spec fn gate_status(p: Product, r: Radial, g: int) -> GateStatus {
    match p.moment_in(r) {
        Some(m) => {
            let cs = m.block().moment_codes_spec();
            if 0 <= g < cs.len() {
                code_status(cs[g])
            } else {
                GateStatus::NoData
            }
        },
        None => match p.cfp_in(r) {
            Some(c) => {
                let cs = c.block().words().map_values(
                    |w: u16| cfp_code(c.block().scale_is_zero(), w),
                );
                if 0 <= g < cs.len() {
                    cfp_status(cs[g])
                } else {
                    GateStatus::NoData
                }
            },
            None => GateStatus::NoData,
        },
    }
}

/// The statuses of the first `gate_count` gates of a radial.
pub open spec fn row_statuses(p: Product, r: Radial, gate_count: nat) -> Seq<GateStatus> {
    Seq::new(gate_count, |g: int| gate_status(p, r, g))
}

/// The statuses of the rows, row after row.
pub open spec fn layout_statuses(radials: Seq<Radial>, p: Product, rows: Seq<usize>, gate_count: nat) -> Seq<
    GateStatus,
>
    decreases rows.len(),
{
    if rows.len() == 0 {
        Seq::empty()
    } else {
        layout_statuses(radials, p, rows.drop_last(), gate_count) + row_statuses(
            p,
            radials[rows.last() as int],
            gate_count,
        )
    }
}

/// The statuses of a layout hold one status per gate of every row.
pub proof fn lemma_layout_statuses_len(radials: Seq<Radial>, p: Product, rows: Seq<usize>, gate_count: nat)
    ensures
        layout_statuses(radials, p, rows, gate_count).len() == rows.len() * gate_count,
    decreases rows.len(),
{
    if rows.len() > 0 {
        lemma_layout_statuses_len(radials, p, rows.drop_last(), gate_count);
        assert(rows.len() * gate_count == (rows.len() - 1) * gate_count + gate_count) by (nonlinear_arith)
            requires
                rows.len() > 0,
        ;
    }
}

/// The layout of a sweep field for one product.
#[derive(Debug, Clone, PartialEq, Eq)]
pub struct SweepLayout {
    /// Bit pattern of the `f32` elevation angle of the first radial.
    pub elevation_bits: u32,
    /// Bit pattern of the `f32` azimuth spacing of the first radial.
    pub azimuth_spacing_bits: u32,
    /// Range to the first gate in metres, from the first radial with data.
    pub first_gate_range_m: u16,
    /// Gate spacing in metres, from the first radial with data.
    pub gate_interval_m: u16,
    /// Number of gates per row, from the first radial with data.
    pub gate_count: usize,
    /// For each row, the index of its radial.
    pub rows: Vec<usize>,
    /// Bit pattern of the `f32` azimuth of each row.
    pub azimuth_bits: Vec<u32>,
    /// Status of every gate, row-major.
    pub status: Vec<GateStatus>,
}

/// Indices of `product_indices` point at radials that carry the product.
proof fn lemma_product_indices(radials: Seq<Radial>, p: Product)
    requires
        radials.len() <= usize::MAX,
    ensures
        forall|k: int|
            0 <= k < product_indices(radials, p).len() ==> (#[trigger] product_indices(radials, p)[k])
                < radials.len() && has_product(p, radials[product_indices(radials, p)[k] as int]),
    decreases radials.len(),
{
    if radials.len() > 0 {
        let prev = radials.drop_last();
        lemma_product_indices(prev, p);
        let pi = product_indices(radials, p);
        let pp = product_indices(prev, p);
        assert forall|k: int| 0 <= k < pi.len() implies (#[trigger] pi[k]) < radials.len()
            && has_product(p, radials[pi[k] as int]) by {
            if k < pp.len() {
                assert(pi[k] == pp[k]);
                assert(prev[pp[k] as int] == radials[pp[k] as int]);
            } else {
                assert(has_product(p, radials.last()));
                assert(pi == pp.push((radials.len() - 1) as usize));
            }
        }
    }
}

/// The statuses of the first `gate_count` gates of a radial for a product.
fn radial_statuses(product: Product, radial: &Radial, gate_count: u16) -> (r: Vec<GateStatus>)
    ensures
        r@ == row_statuses(product, *radial, gate_count as nat),
{
    let mut out: Vec<GateStatus> = Vec::new();
    match product.moment_data(radial) {
        Some(m) => {
            let codes = m.codes();
            let mut g: u16 = 0;
            while g < gate_count
                invariant
                    g <= gate_count,
                    product.moment_in(*radial) == Some(*m),
                    codes@ == m.block().moment_codes_spec(),
                    out@ =~= Seq::new(g as nat, |x: int| gate_status(product, *radial, x)),
                decreases gate_count - g,
            {
                let s = if (g as usize) < codes.len() {
                    match codes[g as usize] {
                        MomentCode::Scaled(_) => GateStatus::Valid,
                        MomentCode::Unscaled(_) => GateStatus::Valid,
                        MomentCode::BelowThreshold => GateStatus::BelowThreshold,
                        MomentCode::RangeFolded => GateStatus::RangeFolded,
                    }
                } else {
                    GateStatus::NoData
                };
                out.push(s);
                g = g + 1;
            }
        },
        None => match product.cfp_moment_data(radial) {
            Some(c) => {
                let codes = c.codes();
                let mut g: u16 = 0;
                while g < gate_count
                    invariant
                        g <= gate_count,
                        product.moment_in(*radial) is None,
                        product.cfp_in(*radial) == Some(*c),
                        codes@ == c.block().words().map_values(
                            |w: u16| cfp_code(c.block().scale_is_zero(), w),
                        ),
                        out@ =~= Seq::new(g as nat, |x: int| gate_status(product, *radial, x)),
                    decreases gate_count - g,
                {
                    let s = if (g as usize) < codes.len() {
                        match codes[g as usize] {
                            CFPMomentCode::Status(_) => GateStatus::NoData,
                            _ => GateStatus::Valid,
                        }
                    } else {
                        GateStatus::NoData
                    };
                    out.push(s);
                    g = g + 1;
                }
            },
            None => {
                let mut g: u16 = 0;
                while g < gate_count
                    invariant
                        g <= gate_count,
                        product.moment_in(*radial) is None,
                        product.cfp_in(*radial) is None,
                        out@ =~= Seq::new(g as nat, |x: int| gate_status(product, *radial, x)),
                    decreases gate_count - g,
                {
                    out.push(GateStatus::NoData);
                    g = g + 1;
                }
            },
        },
    }
    out
}

/// Lays out a sweep field for one product: the radials that carry the
/// product become its rows, stably sorted by azimuth; their gate geometry is
/// that of the first radial with data; elevation and azimuth spacing are those
/// of the first radial.
///
/// Returns `None` when no radial carries the product (in particular when
/// there are no radials).
pub fn sweep_layout(radials: &[Radial], product: Product) -> (r: Option<SweepLayout>)
    ensures
        r is None <==> product_indices(radials@, product).len() == 0,
        r matches Some(l) ==> {
            let b = product_block(product, radials@[product_indices(radials@, product)[0] as int]).unwrap();
            &&& l.elevation_bits == radials@[0].spec_elevation_angle_bits()
            &&& l.azimuth_spacing_bits == radials@[0].spec_azimuth_spacing_bits()
            &&& l.first_gate_range_m == b.spec_first_gate_range()
            &&& l.gate_interval_m == b.spec_gate_interval()
            &&& l.gate_count == b.spec_gate_count()
            &&& stable_sorted_by_key(l.rows@, product_indices(radials@, product), row_key(radials@))
            &&& l.azimuth_bits@ == l.rows@.map_values(
                |i: usize| radials@[i as int].spec_azimuth_angle_bits(),
            )
            &&& l.status@ == layout_statuses(radials@, product, l.rows@, l.gate_count as nat)
            &&& l.status@.len() == l.rows@.len() * l.gate_count
        },
{
    let n = radials.len();
    let mut candidates: Vec<usize> = Vec::new();
    let mut i: usize = 0;
    while i < n
        invariant
            n == radials@.len(),
            i <= n,
            candidates@ == product_indices(radials@.take(i as int), product),
        decreases n - i,
    {
        if product.radial_has_product(&radials[i]) {
            candidates.push(i);
        }
        i = i + 1;
        proof {
            let t = radials@.take(i as int);
            assert(t.drop_last() =~= radials@.take(i - 1));
            assert(t.last() == radials@[i - 1]);
        }
    }
    proof {
        assert(radials@.take(n as int) =~= radials@);
        assert(radials@.len() <= usize::MAX);
        lemma_product_indices(radials@, product);
    }
    if candidates.len() == 0 {
        return None;
    }
    let ghost input = candidates@;
    let first = &radials[candidates[0]];
    let (first_gate_range_m, gate_interval_m, gate_count) = match product.moment_data(first) {
        Some(m) => (m.data().first_gate_range_m(), m.data().gate_interval_m(), m.data().gate_count()),
        None => match product.cfp_moment_data(first) {
            Some(c) => (c.data().first_gate_range_m(), c.data().gate_interval_m(), c.data().gate_count()),
            None => {
                assert(has_product(product, radials@[input[0] as int]));
                return None;
            },
        },
    };
    let ghost key = row_key(radials@);
    let mut rows: Vec<usize> = Vec::new();
    proof {
        lemma_stable_sorted_empty(key);
        assert(input.take(0) =~= Seq::<usize>::empty());
    }
    let mut j: usize = 0;
    while j < candidates.len()
        invariant
            n == radials@.len(),
            candidates@ == input,
            input == product_indices(radials@, product),
            j <= input.len(),
            key == row_key(radials@),
            stable_sorted_by_key(rows@, input.take(j as int), key),
            forall|k: int| 0 <= k < input.len() ==> (#[trigger] input[k]) < n && has_product(
                product,
                radials@[input[k] as int],
            ),
            forall|k: int| 0 <= k < rows@.len() ==> (#[trigger] rows@[k]) < n && has_product(
                product,
                radials@[rows@[k] as int],
            ),
        decreases input.len() - j,
    {
        let x = candidates[j];
        let kx = f32_order_key(radials[x].azimuth_angle_bits());
        let mut p: usize = 0;
        while p < rows.len() && f32_order_key(radials[rows[p]].azimuth_angle_bits()) <= kx
            invariant
                n == radials@.len(),
                p <= rows@.len(),
                key == row_key(radials@),
                kx == key(x),
                forall|k: int| 0 <= k < rows@.len() ==> (#[trigger] rows@[k]) < n,
                forall|k: int| 0 <= k < p ==> key(#[trigger] rows@[k]) <= kx,
            decreases rows@.len() - p,
        {
            p = p + 1;
        }
        proof {
            let s = rows@;
            assert forall|k: int| p <= k < s.len() implies key(#[trigger] s[k]) > key(x) by {
                assert(key(s[p as int]) > kx);
                assert(key(s[p as int]) <= key(s[k]));
            }
            lemma_insert_stable(s, input.take(j as int), x, p as int, key);
            assert(input.take(j + 1) =~= input.take(j as int).push(x));
        }
        rows.insert(p, x);
        j = j + 1;
    }
    proof {
        assert(input.take(input.len() as int) =~= input);
    }
    let mut azimuth_bits: Vec<u32> = Vec::new();
    let mut status: Vec<GateStatus> = Vec::new();
    let mut k: usize = 0;
    while k < rows.len()
        invariant
            n == radials@.len(),
            k <= rows@.len(),
            forall|q: int| 0 <= q < rows@.len() ==> (#[trigger] rows@[q]) < n,
            azimuth_bits@ == rows@.take(k as int).map_values(
                |i: usize| radials@[i as int].spec_azimuth_angle_bits(),
            ),
            status@ == layout_statuses(radials@, product, rows@.take(k as int), gate_count as nat),
        decreases rows@.len() - k,
    {
        let radial = &radials[rows[k]];
        azimuth_bits.push(radial.azimuth_angle_bits());
        let mut row = radial_statuses(product, radial, gate_count);
        status.append(&mut row);
        k = k + 1;
        proof {
            let t = rows@.take(k as int);
            assert(t.drop_last() =~= rows@.take(k - 1));
            assert(azimuth_bits@ =~= t.map_values(|i: usize| radials@[i as int].spec_azimuth_angle_bits()));
        }
    }
    proof {
        assert(rows@.take(rows@.len() as int) =~= rows@);
        lemma_layout_statuses_len(radials@, product, rows@, gate_count as nat);
    }
    Some(
        SweepLayout {
            elevation_bits: radials[0].elevation_angle_bits(),
            azimuth_spacing_bits: radials[0].azimuth_spacing_bits(),
            first_gate_range_m,
            gate_interval_m,
            gate_count: gate_count as usize,
            rows,
            azimuth_bits,
            status,
        },
    )
}

} // verus!
