//! Gate ranges as the single-precision metre values that geometry checks
//! compare.
//!
//! A range of `m` metres is held as kilometres in double precision
//! (`m * 0.001`), narrowed to single precision and scaled back by 1000 in
//! single precision. Each step rounds to the nearest representable value,
//! ties to even. All values here are integers in units of 2^-62, which holds
//! every value of that computation exactly.
use vstd::prelude::*;
use vstd::arithmetic::div_mod::{lemma_div_denominator, lemma_fundamental_div_mod};

verus! {

/// Two to the power `e`.
pub open spec fn power_of_two(e: nat) -> nat
    decreases e,
{
    if e == 0 {
        1
    } else {
        2 * power_of_two((e - 1) as nat)
    }
}

/// How many low bits of `n` are dropped so that at most `p` significant
/// bits are left.
pub open spec fn dropped_bits(n: nat, p: nat) -> nat
    decreases n,
{
    if n == 0 || n < power_of_two(p) {
        0
    } else {
        1 + dropped_bits(n / 2, p)
    }
}

/// `n` rounded to `p` significant bits, to nearest with ties to even: the
/// rounding of a binary floating-point number with a `p`-bit significand.
pub open spec fn round_to_precision(n: nat, p: nat) -> nat {
    let unit = power_of_two(dropped_bits(n, p));
    let q = n / unit;
    let rest = n % unit;
    let up = 2 * rest > unit || (2 * rest == unit && q % 2 == 1);
    (if up {
        q + 1
    } else {
        q
    }) * unit
}

/// Significand precision of double precision.
pub const F64_PRECISION: u32 = 53u32;

/// Significand precision of single precision.
pub const F32_PRECISION: u32 = 24u32;

/// The double nearest to 0.001, in units of 2^-62.
pub const KM_PER_METRE_F64: u128 = 0x0010_624d_d2f1_a9fcu128;

/// One (metre), in units of 2^-62.
pub const ONE_SCALED: u128 = 0x4000_0000_0000_0000u128;

/// The single-precision metre value of a range of `m` metres, in units of
/// 2^-62: `m * 0.001` in double precision, narrowed to single precision,
/// times 1000 in single precision.
pub open spec fn f32_metres(m: u16) -> nat {
    let km_f64 = round_to_precision(m as nat * KM_PER_METRE_F64 as nat, F64_PRECISION as nat);
    let km_f32 = round_to_precision(km_f64, F32_PRECISION as nat);
    round_to_precision(km_f32 * 1000, F32_PRECISION as nat)
}

/// The distance between two naturals.
pub open spec fn distance(x: nat, y: nat) -> nat {
    if x >= y {
        (x - y) as nat
    } else {
        (y - x) as nat
    }
}

/// Whether two ranges in metres are more than the one-metre geometry
/// tolerance apart: the single-precision difference of their
/// single-precision metre values exceeds 1.
pub open spec fn beyond_tolerance(a: u16, b: u16) -> bool {
    round_to_precision(distance(f32_metres(a), f32_metres(b)), F32_PRECISION as nat) > ONE_SCALED
}

proof fn lemma_power_of_two_positive(e: nat)
    ensures
        power_of_two(e) >= 1,
    decreases e,
{
    if e > 0 {
        lemma_power_of_two_positive((e - 1) as nat);
    }
}

proof fn lemma_precision_limits()
    ensures
        power_of_two(F64_PRECISION as nat) == 0x20_0000_0000_0000,
        power_of_two(F32_PRECISION as nat) == 0x100_0000,
        power_of_two(62) == ONE_SCALED,
{
    reveal_with_fuel(power_of_two, 63);
}

/// `n` rounded to `p` significant bits; `limit` is 2^`p`.
fn round_to_precision_exec(n: u128, p: u32, limit: u128) -> (r: u128)
    requires
        n < 0x4000_0000_0000_0000_0000_0000_0000_0000u128,
        limit == power_of_two(p as nat),
    ensures
        r == round_to_precision(n as nat, p as nat),
        r <= 3 * n,
{
    let mut unit: u128 = 1;
    let mut q: u128 = n;
    let ghost mut s: nat = 0;
    proof {
        assert(power_of_two(0) == 1);
        lemma_power_of_two_positive(p as nat);
    }
    while q >= limit && q != 0
        invariant
            limit == power_of_two(p as nat),
            limit >= 1,
            n < 0x4000_0000_0000_0000_0000_0000_0000_0000u128,
            unit == power_of_two(s),
            unit >= 1,
            q == n / unit,
            q * unit <= n,
            s > 0 ==> unit <= 2 * n,
            dropped_bits(n as nat, p as nat) == s + dropped_bits(q as nat, p as nat),
        decreases q,
    {
        proof {
            lemma_div_denominator(n as int, unit as int, 2);
            assert(unit * 2 == 2 * unit) by (nonlinear_arith);
            assert(unit <= n) by (nonlinear_arith)
                requires
                    q * unit <= n,
                    q >= 1,
                    unit >= 1,
            ;
        }
        q = q / 2;
        unit = unit * 2;
        proof {
            s = s + 1;
            lemma_fundamental_div_mod(n as int, unit as int);
            assert(q * unit <= n) by (nonlinear_arith)
                requires
                    n == unit * q + n % unit,
                    n % unit >= 0,
            ;
        }
    }
    proof {
        if q != 0 {
            assert(q < limit);
        }
        lemma_fundamental_div_mod(n as int, unit as int);
    }
    let rest = n % unit;
    let up = 2 * rest > unit || (2 * rest == unit && q % 2 == 1);
    if !up {
        proof {
            assert(q * unit <= 3 * n);
        }
        q * unit
    } else {
        proof {
            if s == 0 {
                assert(unit == 1);
                assert(rest == 0);
            }
            assert((q + 1) * unit == q * unit + unit) by (nonlinear_arith);
        }
        (q + 1) * unit
    }
}

/// The single-precision metre value of a range of `m` metres, in units of
/// 2^-62.
pub fn f32_metres_exec(m: u16) -> (r: u128)
    ensures
        r == f32_metres(m),
        r < 0x1_0000_0000_0000_0000_0000_0000u128,
{
    proof {
        lemma_precision_limits();
    }
    let exact = m as u128 * KM_PER_METRE_F64;
    assert(exact <= 0x20_0000_0000_0000u128 * 65535) by (nonlinear_arith)
        requires
            exact == m as u128 * KM_PER_METRE_F64,
            m <= 65535,
    ;
    let km_f64 = round_to_precision_exec(exact, F64_PRECISION, 0x20_0000_0000_0000u128);
    let km_f32 = round_to_precision_exec(km_f64, F32_PRECISION, 0x100_0000u128);
    round_to_precision_exec(km_f32 * 1000, F32_PRECISION, 0x100_0000u128)
}

/// Whether two ranges in metres are more than the one-metre geometry
/// tolerance apart, as [`beyond_tolerance`] states.
pub fn exceeds_tolerance(a: u16, b: u16) -> (r: bool)
    ensures
        r == beyond_tolerance(a, b),
{
    proof {
        lemma_precision_limits();
    }
    let x = f32_metres_exec(a);
    let y = f32_metres_exec(b);
    let d = if x >= y {
        x - y
    } else {
        y - x
    };
    round_to_precision_exec(d, F32_PRECISION, 0x100_0000u128) > ONE_SCALED
}

} // verus!
