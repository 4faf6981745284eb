//! Order and comparison of `f32` numbers given by their IEEE-754 bit
//! patterns.
use vstd::prelude::*;
use vstd::arithmetic::power2::{lemma_pow2_pos, lemma_pow2_strictly_increases, lemma_pow2_unfold, pow2};
use crate::model::sorting::{lemma_insert_stable, lemma_stable_sorted_empty, stable_sorted_by_key};

verus! {

/// Bit pattern of the least finite `f32`, `f32::MIN`.
pub const F32_MIN_BITS: u32 = 0xff7f_ffffu32;

/// Bit pattern of the greatest finite `f32`, `f32::MAX`.
pub const F32_MAX_BITS: u32 = 0x7f7f_ffffu32;

/// Whether the `f32` with these bits is a NaN: all exponent bits set and a
/// non-zero mantissa.
pub open spec fn f32_is_nan(bits: u32) -> bool {
    bits % 0x8000_0000 > 0x7f80_0000
}

/// The `f32` comparison `a < b`: false when either is a NaN.
pub open spec fn f32_lt(a: u32, b: u32) -> bool {
    !f32_is_nan(a) && !f32_is_nan(b) && f32_key(a) < f32_key(b)
}

/// The `f32` comparison `a <= b`: false when either is a NaN.
pub open spec fn f32_le(a: u32, b: u32) -> bool {
    !f32_is_nan(a) && !f32_is_nan(b) && f32_key(a) <= f32_key(b)
}

/// A sort key for the bit pattern of an `f32`: for numbers that are not NaN
/// it orders as the numbers do, with both zeros equal.
pub open spec fn f32_key(bits: u32) -> int {
    if bits == 0x8000_0000 {
        0x8000_0000
    } else if bits > 0x8000_0000 {
        0xffff_ffff - bits
    } else {
        bits + 0x8000_0000
    }
}

/// The sort key `f32_key` of an `f32` bit pattern, computed.
pub fn f32_order_key(bits: u32) -> (r: u32)
    ensures
        r == f32_key(bits),
{
    if bits == 0x8000_0000 {
        0x8000_0000
    } else if bits > 0x8000_0000 {
        0xffff_ffff - bits
    } else {
        bits + 0x8000_0000
    }
}


/// Whether the `f32` with these bits is a NaN.
pub fn f32_bits_is_nan(bits: u32) -> (r: bool)
    ensures
        r == f32_is_nan(bits),
{
    bits % 0x8000_0000 > 0x7f80_0000
}

/// The `f32` comparison `a < b` on bit patterns.
pub fn f32_bits_lt(a: u32, b: u32) -> (r: bool)
    ensures
        r == f32_lt(a, b),
{
    !f32_bits_is_nan(a) && !f32_bits_is_nan(b) && f32_order_key(a) < f32_order_key(b)
}

/// The `f32` comparison `a <= b` on bit patterns.
pub fn f32_bits_le(a: u32, b: u32) -> (r: bool)
    ensures
        r == f32_le(a, b),
{
    !f32_bits_is_nan(a) && !f32_bits_is_nan(b) && f32_order_key(a) <= f32_order_key(b)
}

/// The key of `f32_key` as a function.
pub open spec fn f32_bits_key() -> spec_fn(u32) -> int {
    |b: u32| f32_key(b)
}

/// Stable insertion sort of `f32` bit patterns in the order of their
/// numbers.
pub fn sort_f32_bits(values: Vec<u32>) -> (r: Vec<u32>)
    ensures
        stable_sorted_by_key(r@, values@, f32_bits_key()),
{
    let ghost input = values@;
    let ghost key = f32_bits_key();
    let mut out: Vec<u32> = Vec::new();
    proof {
        lemma_stable_sorted_empty(key);
        assert(input.take(0) =~= Seq::<u32>::empty());
    }
    let mut j: usize = 0;
    while j < values.len()
        invariant
            input == values@,
            j <= input.len(),
            key == f32_bits_key(),
            stable_sorted_by_key(out@, input.take(j as int), key),
        decreases input.len() - j,
    {
        let x = values[j];
        let kx = f32_order_key(x);
        let mut p: usize = 0;
        while p < out.len() && f32_order_key(out[p]) <= kx
            invariant
                p <= out@.len(),
                key == f32_bits_key(),
                kx == key(x),
                forall|k: int| 0 <= k < p ==> key(#[trigger] out@[k]) <= kx,
            decreases out@.len() - p,
        {
            p = p + 1;
        }
        proof {
            let s = out@;
            assert forall|k: int| p <= k < s.len() implies key(#[trigger] s[k]) > key(x) by {
                assert(key(s[p as int]) > kx);
                assert(key(s[p as int]) <= key(s[k]));
            }
            lemma_insert_stable(s, input.take(j as int), x, p as int, key);
            assert(input.take(j + 1) =~= input.take(j as int).push(x));
        }
        out.insert(p, x);
        j = j + 1;
    }
    proof {
        assert(input.take(input.len() as int) =~= input);
    }
    out
}

/// The magnitude of an `f32` whose bits, sign cleared, are `p`, in units of
/// 2^-149 (the least subnormal): with exponent field `e = p / 2^23` and
/// fraction `m = p % 2^23`, it is `m` for a subnormal or zero (`e == 0`) and
/// `(2^23 + m) * 2^(e - 1)` otherwise. Infinity (`e == 255`, `m == 0`) gets
/// `2^23 * 2^254`, above every finite magnitude.
pub open spec fn f32_magnitude_of(p: int) -> int {
    let e = p / 0x80_0000;
    let m = p % 0x80_0000;
    if e == 0 {
        m
    } else {
        (m + 0x80_0000) * pow2((e - 1) as nat)
    }
}

/// The number an `f32` bit pattern stands for, in units of 2^-149: its
/// magnitude, negated when the sign bit is set (so both zeros are 0).
pub open spec fn f32_value(bits: u32) -> int {
    let magnitude = f32_magnitude_of((bits % 0x8000_0000) as int);
    if bits >= 0x8000_0000 {
        -magnitude
    } else {
        magnitude
    }
}

/// Below one exponent step: a magnitude with exponent field `e` is under
/// `2^23 * 2^e`, and one with a greater exponent field is at least that.
proof fn lemma_magnitude_bounds(p: int)
    requires
        0 <= p <= 0x7f80_0000,
    ensures
        f32_magnitude_of(p) < 0x80_0000 * pow2((p / 0x80_0000) as nat),
        p / 0x80_0000 > 0 ==> f32_magnitude_of(p) >= 0x80_0000 * pow2((p / 0x80_0000 - 1) as nat),
        f32_magnitude_of(p) >= 0,
        f32_magnitude_of(p) == 0 <==> p == 0,
{
    let e = p / 0x80_0000;
    let m = p % 0x80_0000;
    if e == 0 {
        assert(pow2(0) == 1) by {
            vstd::arithmetic::power2::lemma2_to64();
        }
    } else {
        let q = pow2((e - 1) as nat);
        lemma_pow2_pos((e - 1) as nat);
        lemma_pow2_unfold(e as nat);
        assert((m + 0x80_0000) * q < 0x80_0000 * (2 * q)) by (nonlinear_arith)
            requires
                m < 0x80_0000,
                q > 0,
        ;
        assert((m + 0x80_0000) * q >= 0x80_0000 * q) by (nonlinear_arith)
            requires
                m >= 0,
                q > 0,
        ;
    }
}

/// The magnitude grows strictly with the bits that encode it.
proof fn lemma_magnitude_increases(p: int, q: int)
    requires
        0 <= p < q <= 0x7f80_0000,
    ensures
        f32_magnitude_of(p) < f32_magnitude_of(q),
{
    let ep = p / 0x80_0000;
    let eq = q / 0x80_0000;
    lemma_magnitude_bounds(p);
    lemma_magnitude_bounds(q);
    assert(ep <= eq);
    if ep == eq {
        let mp = p % 0x80_0000;
        let mq = q % 0x80_0000;
        assert(mp < mq);
        if ep > 0 {
            let w = pow2((ep - 1) as nat);
            lemma_pow2_pos((ep - 1) as nat);
            assert((mp + 0x80_0000) * w < (mq + 0x80_0000) * w) by (nonlinear_arith)
                requires
                    mp < mq,
                    w > 0,
            ;
        }
    } else {
        if ep < eq - 1 {
            lemma_pow2_strictly_increases(ep as nat, (eq - 1) as nat);
        }
        assert(pow2(ep as nat) <= pow2((eq - 1) as nat));
        let a = pow2(ep as nat);
        let b = pow2((eq - 1) as nat);
        assert(0x80_0000 * a <= 0x80_0000 * b) by (nonlinear_arith)
            requires
                a <= b,
        ;
    }
}

/// Half of the order law: a smaller key means a smaller number, an equal
/// key an equal number.
proof fn lemma_key_follows_value(a: u32, b: u32)
    requires
        !f32_is_nan(a),
        !f32_is_nan(b),
    ensures
        f32_key(a) < f32_key(b) ==> f32_value(a) < f32_value(b),
        f32_key(a) == f32_key(b) ==> f32_value(a) == f32_value(b),
{
    let pa = a % 0x8000_0000;
    let pb = b % 0x8000_0000;
    lemma_magnitude_bounds(pa as int);
    lemma_magnitude_bounds(pb as int);
    if pa < pb {
        lemma_magnitude_increases(pa as int, pb as int);
    } else if pb < pa {
        lemma_magnitude_increases(pb as int, pa as int);
    }
}

/// `f32_lt` and `f32_le` are the order of the numbers: for bit patterns that
/// are not NaN, `a < b` holds exactly when the number of `a` is below that
/// of `b`, and `a <= b` exactly when it is not above it (both zeros equal,
/// infinities beyond every finite number).
pub proof fn lemma_f32_order_is_numeric(a: u32, b: u32)
    requires
        !f32_is_nan(a),
        !f32_is_nan(b),
    ensures
        f32_lt(a, b) <==> f32_value(a) < f32_value(b),
        f32_le(a, b) <==> f32_value(a) <= f32_value(b),
{
    lemma_key_follows_value(a, b);
    lemma_key_follows_value(b, a);
}

} // verus!
