//! Neighbourhood kernels over the azimuth x range grid of a sweep, shared by
//! the median filter and Gaussian smoothing.
use vstd::prelude::*;
use crate::model::data::gate_status::GateStatus;
use crate::model::data::sweep_field::SweepField;
use crate::model::field::layout::{lemma_row_major_bounds, lemma_row_major_injective};
use crate::model::float_order::{f32_bits_key, f32_is_nan, sort_f32_bits};
use crate::model::sorting::stable_sorted_by_key;
use crate::process::result::Error;

verus! {

/// One position of a kernel placed on a gate of a polar grid.
#[derive(Debug, Clone, Copy, PartialEq, Eq, Structural)]
pub struct KernelTap {
    /// Azimuth row of the neighbour (wrapped around the sweep).
    pub azimuth: usize,
    /// Gate index of the neighbour.
    pub gate: usize,
    /// Position of the tap along the azimuth axis of the kernel, `0..azimuth_kernel`.
    pub azimuth_step: usize,
    /// Position of the tap along the range axis of the kernel, `0..range_kernel`.
    pub range_step: usize,
}

/// First range step of the kernel whose gate is not before the first gate.
pub open spec fn first_range_step(gate: int, range_half: int) -> int {
    if range_half > gate {
        range_half - gate
    } else {
        0
    }
}

/// End (exclusive) of the range steps whose gate is before `gate_count`.
pub open spec fn end_range_step(gate: int, gate_count: int, range_kernel: int, range_half: int) -> int {
    if range_kernel < gate_count + range_half - gate {
        range_kernel
    } else {
        gate_count + range_half - gate
    }
}

/// The taps of azimuth step `daz`: the kernel's range steps whose gate lies
/// in the grid, in increasing order, at the wrapped azimuth
/// `(azimuth + daz - azimuth_kernel / 2) mod az_count`.
pub open spec fn tap_row(
    azimuth: int,
    gate: int,
    az_count: int,
    gate_count: int,
    azimuth_kernel: int,
    range_kernel: int,
    daz: int,
) -> Seq<KernelTap> {
    let az_half = azimuth_kernel / 2;
    let range_half = range_kernel / 2;
    let lo = first_range_step(gate, range_half);
    let hi = end_range_step(gate, gate_count, range_kernel, range_half);
    Seq::new(
        (hi - lo) as nat,
        |t: int|
            KernelTap {
                azimuth: ((azimuth + daz - az_half) % az_count) as usize,
                gate: (gate + lo + t - range_half) as usize,
                azimuth_step: daz as usize,
                range_step: (lo + t) as usize,
            },
    )
}

/// The taps of the first `d` azimuth steps, row after row.
pub open spec fn kernel_taps_upto(
    azimuth: int,
    gate: int,
    az_count: int,
    gate_count: int,
    azimuth_kernel: int,
    range_kernel: int,
    d: int,
) -> Seq<KernelTap>
    decreases d,
{
    if d <= 0 {
        Seq::empty()
    } else {
        kernel_taps_upto(azimuth, gate, az_count, gate_count, azimuth_kernel, range_kernel, d - 1)
            + tap_row(azimuth, gate, az_count, gate_count, azimuth_kernel, range_kernel, d - 1)
    }
}

/// All taps of an `azimuth_kernel` x `range_kernel` kernel centred on the
/// gate (`azimuth`, `gate`): azimuth wraps around the sweep, range steps that
/// fall outside the gates are left out.
pub open spec fn kernel_taps(
    azimuth: int,
    gate: int,
    az_count: int,
    gate_count: int,
    azimuth_kernel: int,
    range_kernel: int,
) -> Seq<KernelTap> {
    kernel_taps_upto(azimuth, gate, az_count, gate_count, azimuth_kernel, range_kernel, azimuth_kernel)
}

/// How many of the range steps before `dr` fall in `[lo, hi)`.
spec fn steps_in_range_before(dr: int, lo: int, hi: int) -> int {
    if dr <= lo {
        0
    } else if dr >= hi {
        hi - lo
    } else {
        dr - lo
    }
}

proof fn lemma_wrap(a: int, daz: int, az_half: int, m: int)
    requires
        m > 0,
        0 <= a,
        0 <= az_half,
    ensures
        (a + (m - az_half % m) + daz) % m == (a + daz - az_half) % m,
{
    vstd::arithmetic::div_mod::lemma_fundamental_div_mod(az_half, m);
    let q = az_half / m;
    assert(a + (m - az_half % m) + daz == m * (q + 1) + (a + daz - az_half)) by (nonlinear_arith)
        requires
            az_half == m * q + az_half % m,
    ;
    vstd::arithmetic::div_mod::lemma_mod_multiples_vanish(q + 1, a + daz - az_half, m);
}

/// The taps of the `azimuth_kernel` x `range_kernel` kernel centred on the
/// gate (`azimuth_idx`, `gate_idx`), in kernel order: azimuth steps in turn,
/// and within each the range steps whose gate lies in the grid.
pub fn kernel_taps_at(
    azimuth_idx: usize,
    gate_idx: usize,
    az_count: usize,
    gate_count: usize,
    azimuth_kernel: usize,
    range_kernel: usize,
) -> (r: Vec<KernelTap>)
    requires
        azimuth_idx < az_count,
        gate_idx < gate_count,
        az_count + az_count + azimuth_kernel <= usize::MAX,
        gate_count + range_kernel <= usize::MAX,
    ensures
        r@ == kernel_taps(
            azimuth_idx as int,
            gate_idx as int,
            az_count as int,
            gate_count as int,
            azimuth_kernel as int,
            range_kernel as int,
        ),
{
    let ghost a = azimuth_idx as int;
    let ghost g = gate_idx as int;
    let ghost na = az_count as int;
    let ghost ng = gate_count as int;
    let ghost ak = azimuth_kernel as int;
    let ghost rk = range_kernel as int;
    let az_half = azimuth_kernel / 2;
    let range_half = range_kernel / 2;
    let base = azimuth_idx + (az_count - az_half % az_count);
    let ghost lo = first_range_step(g, range_half as int);
    let ghost hi = end_range_step(g, ng, rk, range_half as int);
    let mut out: Vec<KernelTap> = Vec::new();
    let mut daz: usize = 0;
    while daz < azimuth_kernel
        invariant
            daz <= azimuth_kernel,
            az_half == azimuth_kernel / 2,
            range_half == range_kernel / 2,
            base == azimuth_idx + (az_count - az_half % az_count),
            azimuth_idx < az_count,
            gate_idx < gate_count,
            az_count + az_count + azimuth_kernel <= usize::MAX,
            gate_count + range_kernel <= usize::MAX,
            lo == first_range_step(g, range_half as int),
            hi == end_range_step(g, ng, rk, range_half as int),
            out@ == kernel_taps_upto(a, g, na, ng, ak, rk, daz as int),
            a == azimuth_idx,
            g == gate_idx,
            na == az_count,
            ng == gate_count,
            ak == azimuth_kernel,
            rk == range_kernel,
        decreases azimuth_kernel - daz,
    {
        let naz = (base + daz) % az_count;
        proof {
            lemma_wrap(a, daz as int, az_half as int, na);
        }
        let ghost row = tap_row(a, g, na, ng, ak, rk, daz as int);
        let ghost prefix = out@;
        let mut dr: usize = 0;
        proof {
            assert(row.take(0) =~= Seq::<KernelTap>::empty());
            assert(out@ =~= prefix + row.take(steps_in_range_before(0, lo, hi)));
        }
        while dr < range_kernel
            invariant
                dr <= range_kernel,
                range_half == range_kernel / 2,
                gate_idx < gate_count,
                gate_count + range_kernel <= usize::MAX,
                lo == first_range_step(g, range_half as int),
                hi == end_range_step(g, ng, rk, range_half as int),
                row == tap_row(a, g, na, ng, ak, rk, daz as int),
                naz as int == (a + daz - az_half) % na,
                az_half == azimuth_kernel / 2,
                out@ == prefix + row.take(steps_in_range_before(dr as int, lo, hi)),
                a == azimuth_idx,
                g == gate_idx,
                na == az_count,
                ng == gate_count,
                ak == azimuth_kernel,
                rk == range_kernel,
                daz < azimuth_kernel,
            decreases range_kernel - dr,
        {
            if gate_idx + dr >= range_half {
                let ngate = gate_idx + dr - range_half;
                if ngate < gate_count {
                    let tap = KernelTap { azimuth: naz, gate: ngate, azimuth_step: daz, range_step: dr };
                    out.push(tap);
                    proof {
                        let k = steps_in_range_before(dr as int, lo, hi);
                        assert(k == dr - lo);
                        assert(row[k] == tap);
                        assert(row.take(k + 1) =~= row.take(k).push(row[k]));
                        assert(steps_in_range_before(dr + 1, lo, hi) == k + 1);
                    }
                }
            }
            dr = dr + 1;
        }
        proof {
            assert(row.take(steps_in_range_before(dr as int, lo, hi)) =~= row);
        }
        daz = daz + 1;
    }
    out
}

/// Every tap of a kernel lies inside the grid.
pub proof fn lemma_kernel_taps_in_grid(
    azimuth: int,
    gate: int,
    az_count: int,
    gate_count: int,
    azimuth_kernel: int,
    range_kernel: int,
    d: int,
)
    requires
        0 <= azimuth < az_count,
        0 <= gate < gate_count,
        az_count <= usize::MAX,
        gate_count <= usize::MAX,
        0 <= range_kernel,
    ensures
        forall|k: int|
            0 <= k < kernel_taps_upto(azimuth, gate, az_count, gate_count, azimuth_kernel, range_kernel, d).len()
                ==> (#[trigger] kernel_taps_upto(
                azimuth,
                gate,
                az_count,
                gate_count,
                azimuth_kernel,
                range_kernel,
                d,
            )[k]).azimuth < az_count && kernel_taps_upto(
                azimuth,
                gate,
                az_count,
                gate_count,
                azimuth_kernel,
                range_kernel,
                d,
            )[k].gate < gate_count,
    decreases d,
{
    if d > 0 {
        lemma_kernel_taps_in_grid(azimuth, gate, az_count, gate_count, azimuth_kernel, range_kernel, d - 1);
        let prev = kernel_taps_upto(azimuth, gate, az_count, gate_count, azimuth_kernel, range_kernel, d - 1);
        let row = tap_row(azimuth, gate, az_count, gate_count, azimuth_kernel, range_kernel, d - 1);
        let all = kernel_taps_upto(azimuth, gate, az_count, gate_count, azimuth_kernel, range_kernel, d);
        assert(all == prev + row);
        assert forall|k: int| 0 <= k < all.len() implies (#[trigger] all[k]).azimuth < az_count && all[k].gate
            < gate_count by {
            if k >= prev.len() {
                let t = k - prev.len();
                let x = azimuth + (d - 1) - azimuth_kernel / 2;
                assert(0 <= x % az_count < az_count) by {
                    vstd::arithmetic::div_mod::lemma_mod_bound(x, az_count);
                }
                assert(row[t] == all[k]);
            }
        }
    }
}

/// The values of the valid gates at the taps, in tap order.
pub open spec fn valid_tap_values(field: SweepField, taps: Seq<KernelTap>) -> Seq<u32>
    decreases taps.len(),
{
    if taps.len() == 0 {
        Seq::empty()
    } else {
        let prev = valid_tap_values(field, taps.drop_last());
        let t = taps.last();
        let i = field.index_of(t.azimuth as int, t.gate as int);
        if field.spec_status()[i] == GateStatus::Valid {
            prev.push(field.spec_values()[i])
        } else {
            prev
        }
    }
}

/// `m` is the middle value of `values` sorted in `f32` order: the item at
/// position `len / 2` of their stable sort.
pub open spec fn is_median(m: u32, values: Seq<u32>) -> bool {
    exists|s: Seq<u32>|
        stable_sorted_by_key(s, values, f32_bits_key()) && m == s[(values.len() / 2) as int]
}

/// The middle value of a non-empty list of `f32` values: the item at
/// position `len / 2` once they are stably sorted in `f32` order.
pub fn median_bits(values: Vec<u32>) -> (r: u32)
    requires
        values@.len() > 0,
    ensures
        is_median(r, values@),
{
    let ghost input = values@;
    let sorted = sort_f32_bits(values);
    let m = sorted[sorted.len() / 2];
    assert(stable_sorted_by_key(sorted@, input, f32_bits_key()) && m == sorted@[(input.len() / 2) as int]);
    m
}

/// Median filter in an azimuth x range kernel.
///
/// Replaces each valid gate value with the median of the valid values in its
/// neighbourhood, given by [`kernel_taps_at`]. The kernel sizes are the
/// number of gates in each dimension and must be odd; the azimuth dimension
/// wraps around 360 degrees.
pub struct MedianFilter {
    /// Kernel width in the azimuth dimension (must be odd, >= 1).
    pub azimuth_kernel: usize,
    /// Kernel width in the range dimension (must be odd, >= 1).
    pub range_kernel: usize,
}

impl MedianFilter {
    /// Checks the kernel sizes: both must be odd, which also rules out zero.
    pub fn check_kernel(&self) -> (r: Result<(), Error>)
        ensures
            r is Err <==> (self.azimuth_kernel % 2 == 0 || self.range_kernel % 2 == 0),
            r matches Err(e) ==> (e matches Error::InvalidParameter(m) && m@
                == "kernel sizes must be odd"@),
    {
        if self.azimuth_kernel % 2 == 0 || self.range_kernel % 2 == 0 {
            return Err(Error::InvalidParameter("kernel sizes must be odd".to_owned()));
        }
        Ok(())
    }

    /// Whether the filter leaves every field unchanged: a 1 x 1 kernel.
    pub fn is_identity(&self) -> (r: bool)
        ensures
            r == (self.azimuth_kernel == 1 && self.range_kernel == 1),
    {
        self.azimuth_kernel == 1 && self.range_kernel == 1
    }

    /// The neighbourhood of position (`azimuth_idx`, `gate_idx`) in a grid of
    /// `az_count` x `gate_count` gates.
    pub fn neighbourhood(&self, azimuth_idx: usize, gate_idx: usize, az_count: usize, gate_count: usize) -> (r: Vec<KernelTap>)
        requires
            azimuth_idx < az_count,
            gate_idx < gate_count,
            az_count + az_count + self.azimuth_kernel <= usize::MAX,
            gate_count + self.range_kernel <= usize::MAX,
        ensures
            r@ == kernel_taps(
                azimuth_idx as int,
                gate_idx as int,
                az_count as int,
                gate_count as int,
                self.azimuth_kernel as int,
                self.range_kernel as int,
            ),
    {
        kernel_taps_at(azimuth_idx, gate_idx, az_count, gate_count, self.azimuth_kernel, self.range_kernel)
    }

    /// The taps of the kernel centred on gate (`az`, `gate`) of a field.
    pub open spec fn taps(self, field: SweepField, az: int, gate: int) -> Seq<KernelTap> {
        kernel_taps(
            az,
            gate,
            field.spec_azimuths().len() as int,
            field.spec_gate_count() as int,
            self.azimuth_kernel as int,
            self.range_kernel as int,
        )
    }

    /// The values the median of gate (`az`, `gate`) is taken over: those of
    /// the valid gates of its kernel, in kernel order.
    pub open spec fn candidates(self, field: SweepField, az: int, gate: int) -> Seq<u32> {
        valid_tap_values(field, self.taps(field, az, gate))
    }

    /// Whether sorting the candidates of some valid gate meets a NaN: two or
    /// more candidates, one of them a NaN, which `f32` comparison cannot
    /// order.
    pub open spec fn meets_nan(self, field: SweepField) -> bool {
        exists|az: int, gate: int|
            #![trigger field.index_of(az, gate)]
            field.in_bounds(az, gate) && field.spec_status()[field.index_of(az, gate)] == GateStatus::Valid
                && self.candidates(field, az, gate).len() >= 2 && exists|k: int|
                0 <= k < self.candidates(field, az, gate).len() && f32_is_nan(
                    #[trigger] self.candidates(field, az, gate)[k],
                )
    }

    /// The median of the candidates of a valid gate, if it has any.
    fn median_at(&self, field: &SweepField, az: usize, gate: usize) -> (r: Option<u32>)
        requires
            field.in_bounds(az as int, gate as int),
            field.spec_azimuths().len() + field.spec_azimuths().len() + self.azimuth_kernel <= usize::MAX,
            field.spec_gate_count() + self.range_kernel <= usize::MAX,
        ensures
            self.candidates(*field, az as int, gate as int).len() == 0 ==> r is None,
            self.candidates(*field, az as int, gate as int).len() > 0 ==> (r matches Some(m) && is_median(
                m,
                self.candidates(*field, az as int, gate as int),
            )),
    {
        proof {
            use_type_invariant(field);
        }
        let az_count = field.azimuth_count();
        let gate_count = field.gate_count();
        let taps = self.neighbourhood(az, gate, az_count, gate_count);
        proof {
            lemma_kernel_taps_in_grid(
                az as int,
                gate as int,
                az_count as int,
                gate_count as int,
                self.azimuth_kernel as int,
                self.range_kernel as int,
                self.azimuth_kernel as int,
            );
        }
        let mut values: Vec<u32> = Vec::new();
        let mut k: usize = 0;
        while k < taps.len()
            invariant
                field.wf(),
                az_count == field.spec_azimuths().len(),
                gate_count == field.spec_gate_count(),
                taps@ == self.taps(*field, az as int, gate as int),
                forall|q: int| 0 <= q < taps@.len() ==> (#[trigger] taps@[q]).azimuth < az_count && taps@[q].gate
                    < gate_count,
                k <= taps@.len(),
                values@ == valid_tap_values(*field, taps@.take(k as int)),
            decreases taps@.len() - k,
        {
            let t = taps[k];
            let (v, st) = field.get(t.azimuth, t.gate);
            let valid = match st {
                GateStatus::Valid => true,
                _ => false,
            };
            if valid {
                values.push(v);
            }
            k = k + 1;
            proof {
                let now = taps@.take(k as int);
                assert(now.drop_last() =~= taps@.take(k - 1));
                assert(now.last() == t);
            }
        }
        proof {
            assert(taps@.take(k as int) =~= taps@);
        }
        if values.len() == 0 {
            None
        } else {
            Some(median_bits(values))
        }
    }

    /// Replaces the value of each valid gate with the median of the valid
    /// values in its kernel (see [`kernel_taps_at`]); statuses and every
    /// other value are kept. A 1 x 1 kernel returns the field unchanged.
    ///
    /// Fails with `InvalidParameter` when a kernel size is even.
    pub fn process(&self, input: &SweepField) -> (r: Result<SweepField, Error>)
        requires
            self.azimuth_kernel % 2 == 1 && self.range_kernel % 2 == 1 && !(self.azimuth_kernel == 1
                && self.range_kernel == 1) ==> {
                &&& input.spec_azimuths().len() + input.spec_azimuths().len() + self.azimuth_kernel
                    <= usize::MAX
                &&& input.spec_gate_count() + self.range_kernel <= usize::MAX
                &&& !self.meets_nan(*input)
            },
        ensures
            (self.azimuth_kernel % 2 == 0 || self.range_kernel % 2 == 0) <==> r is Err,
            r matches Err(e) ==> (e matches Error::InvalidParameter(m) && m@ == "kernel sizes must be odd"@),
            r matches Ok(out) ==> out.wf() && out.same_geometry(*input) && out.spec_status() == input.spec_status(),
            r matches Ok(out) ==> (self.azimuth_kernel == 1 && self.range_kernel == 1 ==> out.spec_values()
                == input.spec_values()),
            r matches Ok(out) ==> (!(self.azimuth_kernel == 1 && self.range_kernel == 1) ==> forall|
                az: int,
                gate: int,
            |
                #![trigger input.index_of(az, gate)]
                input.in_bounds(az, gate) ==> if input.spec_status()[input.index_of(az, gate)]
                    == GateStatus::Valid && self.candidates(*input, az, gate).len() > 0 {
                    is_median(
                        out.spec_values()[input.index_of(az, gate)],
                        self.candidates(*input, az, gate),
                    )
                } else {
                    out.spec_values()[input.index_of(az, gate)] == input.spec_values()[input.index_of(
                        az,
                        gate,
                    )]
                }),
    {
        proof {
            use_type_invariant(input);
        }
        self.check_kernel()?;
        if self.is_identity() {
            return Ok(input.duplicate());
        }
        let az_count = input.azimuth_count();
        let gate_count = input.gate_count();
        let mut out = input.duplicate();
        let mut az: usize = 0;
        while az < az_count
            invariant
                input.wf(),
                out.wf(),
                out.same_geometry(*input),
                out.spec_status() == input.spec_status(),
                az_count == input.spec_azimuths().len(),
                gate_count == input.spec_gate_count(),
                az_count + az_count + self.azimuth_kernel <= usize::MAX,
                gate_count + self.range_kernel <= usize::MAX,
                az <= az_count,
                forall|a: int, g: int|
                    #![trigger input.index_of(a, g)]
                    input.in_bounds(a, g) ==> if a < az && input.spec_status()[input.index_of(a, g)]
                        == GateStatus::Valid && self.candidates(*input, a, g).len() > 0 {
                        is_median(out.spec_values()[input.index_of(a, g)], self.candidates(*input, a, g))
                    } else {
                        out.spec_values()[input.index_of(a, g)] == input.spec_values()[input.index_of(a, g)]
                    },
            decreases az_count - az,
        {
            let mut gate: usize = 0;
            while gate < gate_count
                invariant
                    input.wf(),
                    out.wf(),
                    out.same_geometry(*input),
                    out.spec_status() == input.spec_status(),
                    az_count == input.spec_azimuths().len(),
                    gate_count == input.spec_gate_count(),
                    az_count + az_count + self.azimuth_kernel <= usize::MAX,
                    gate_count + self.range_kernel <= usize::MAX,
                    az < az_count,
                    gate <= gate_count,
                    forall|a: int, g: int|
                        #![trigger input.index_of(a, g)]
                        input.in_bounds(a, g) ==> if (a < az || (a == az && g < gate)) && input.spec_status()[input.index_of(
                            a,
                            g,
                        )] == GateStatus::Valid && self.candidates(*input, a, g).len() > 0 {
                            is_median(out.spec_values()[input.index_of(a, g)], self.candidates(*input, a, g))
                        } else {
                            out.spec_values()[input.index_of(a, g)] == input.spec_values()[input.index_of(a, g)]
                        },
                decreases gate_count - gate,
            {
                let (_, st) = input.get(az, gate);
                let valid = match st {
                    GateStatus::Valid => true,
                    _ => false,
                };
                if valid {
                    match self.median_at(input, az, gate) {
                        Some(m) => {
                            let ghost before = out;
                            out.set(az, gate, m, GateStatus::Valid);
                            proof {
                                lemma_row_major_bounds(az_count as int, gate_count as int, az as int, gate as int);
                                assert(out.spec_status() =~= input.spec_status());
                                assert forall|a: int, g: int|
                                    #![trigger input.index_of(a, g)]
                                    input.in_bounds(a, g) && (a != az || g != gate) implies out.spec_values()[input.index_of(
                                        a,
                                        g,
                                    )] == before.spec_values()[input.index_of(a, g)] by {
                                    lemma_row_major_bounds(az_count as int, gate_count as int, a, g);
                                    if input.index_of(a, g) == input.index_of(az as int, gate as int) {
                                        lemma_row_major_injective(gate_count as int, a, g, az as int, gate as int);
                                    }
                                }
                            }
                        },
                        None => {},
                    }
                }
                gate = gate + 1;
            }
            az = az + 1;
        }
        Ok(out)
    }
}

} // verus!
