//! Single-precision numbers by their bit patterns.
//!
//! The dashboard compares readings with fixed thresholds and with each other.
//! On the bit pattern of an IEEE 754 number that is a comparison of integers,
//! so the readings stay opaque here: a `u32` holds a single-precision number and
//! a `u64` a double-precision one.

use vstd::prelude::*;

verus! {

/// The bits of a single without its sign.
pub open spec fn magnitude(bits: u32) -> nat {
    (if bits < 0x8000_0000 { bits as int } else { bits - 0x8000_0000 }) as nat
}

/// Whether the bits stand for no number.
pub open spec fn is_nan(bits: u32) -> bool {
    magnitude(bits) > 0x7f80_0000
}

/// The place of a single among all singles: the two zeros share theirs.
pub open spec fn rank(bits: u32) -> int {
    if bits < 0x8000_0000 {
        magnitude(bits) as int
    } else {
        -(magnitude(bits) as int)
    }
}

/// The number that the bits of a positive single stand for, counted in units
/// of the smallest positive single; infinity follows the largest one.
pub open spec fn units(magnitude: nat) -> nat {
    let exponent = magnitude / 0x80_0000;
    let fraction = magnitude % 0x80_0000;
    if exponent == 0 {
        fraction
    } else {
        (0x80_0000 + fraction) * vstd::arithmetic::power2::pow2((exponent - 1) as nat)
    }
}

/// The number that the bits stand for, in units of the smallest positive
/// single.
pub open spec fn value(bits: u32) -> int {
    if bits < 0x8000_0000 {
        units(magnitude(bits)) as int
    } else {
        -(units(magnitude(bits)) as int)
    }
}

/// Whether one single is greater than or equal to another.
pub open spec fn at_least(a: u32, b: u32) -> bool {
    !is_nan(a) && !is_nan(b) && rank(a) >= rank(b)
}

/// Whether one single is greater than another.
pub open spec fn above(a: u32, b: u32) -> bool {
    !is_nan(a) && !is_nan(b) && rank(a) > rank(b)
}

proof fn lemma_units_increase(m: nat, n: nat)
    requires
        m < n,
    ensures
        units(m) < units(n),
{
    let e: nat = m / 0x80_0000;
    let f: nat = m % 0x80_0000;
    let g: nat = n / 0x80_0000;
    let h: nat = n % 0x80_0000;
    assert(m == 0x80_0000 * e + f);
    assert(n == 0x80_0000 * g + h);
    assert(e <= g);
    if e == g {
        assert(f < h);
        if e > 0 {
            let p = vstd::arithmetic::power2::pow2((e - 1) as nat);
            vstd::arithmetic::power2::lemma_pow2_pos((e - 1) as nat);
            assert((0x80_0000 + f) * p < (0x80_0000 + h) * p) by (nonlinear_arith)
                requires
                    f < h,
                    p > 0,
            ;
        }
    } else {
        let q = vstd::arithmetic::power2::pow2((g - 1) as nat);
        vstd::arithmetic::power2::lemma_pow2_pos((g - 1) as nat);
        if e == 0 {
            assert((0x80_0000 + h) * q >= 0x80_0000) by (nonlinear_arith)
                requires
                    q > 0,
            ;
        } else {
            let p = vstd::arithmetic::power2::pow2((e - 1) as nat);
            vstd::arithmetic::power2::lemma_pow2_pos((e - 1) as nat);
            vstd::arithmetic::power2::lemma_pow2_unfold(e);
            assert(vstd::arithmetic::power2::pow2(e) == 2 * p);
            if e < g - 1 {
                vstd::arithmetic::power2::lemma_pow2_strictly_increases(e, (g - 1) as nat);
            }
            assert(2 * p <= q);
            assert((0x80_0000 + f) * p < (0x80_0000 + h) * q) by (nonlinear_arith)
                requires
                    f < 0x80_0000,
                    p > 0,
                    2 * p <= q,
            ;
        }
    }
}

/// Comparing the bits of two numbers compares the numbers.
pub proof fn law_rank_orders_values(a: u32, b: u32)
    requires
        !is_nan(a),
        !is_nan(b),
    ensures
        at_least(a, b) <==> value(a) >= value(b),
        above(a, b) <==> value(a) > value(b),
{
    let m = magnitude(a);
    let n = magnitude(b);
    if m < n {
        lemma_units_increase(m, n);
    }
    if n < m {
        lemma_units_increase(n, m);
    }
    if 0 < m {
        lemma_units_increase(0, m);
    }
    if 0 < n {
        lemma_units_increase(0, n);
    }
}

/// Compares two singles by their bits: greater than or equal.
pub fn single_at_least(a: u32, b: u32) -> (r: bool)
    ensures
        r == at_least(a, b),
{
    let m: u32 = if a < 0x8000_0000 { a } else { a - 0x8000_0000 };
    let n: u32 = if b < 0x8000_0000 { b } else { b - 0x8000_0000 };
    if m > 0x7f80_0000 || n > 0x7f80_0000 {
        return false;
    }
    let x: i64 = if a < 0x8000_0000 { m as i64 } else { -(m as i64) };
    let y: i64 = if b < 0x8000_0000 { n as i64 } else { -(n as i64) };
    x >= y
}

/// Compares two singles by their bits: greater than.
pub fn single_above(a: u32, b: u32) -> (r: bool)
    ensures
        r == above(a, b),
{
    single_at_least(a, b) && !single_at_least(b, a)
}

/// The larger of two singles; one that is no number does not count.
pub open spec fn larger(a: u32, b: u32) -> u32 {
    if is_nan(a) {
        b
    } else if is_nan(b) || rank(a) >= rank(b) {
        a
    } else {
        b
    }
}

/// Chooses the larger of two singles by their bits.
pub fn single_larger(a: u32, b: u32) -> (r: u32)
    ensures
        r == larger(a, b),
{
    if !single_at_least(a, a) || single_above(b, a) {
        b
    } else {
        a
    }
}

/// The larger of two numbers is one of them, and neither is above it; beside
/// what is no number, a number is the larger.
pub proof fn law_larger_is_not_exceeded(a: u32, b: u32)
    ensures
        larger(a, b) == a || larger(a, b) == b,
        !is_nan(a) && !is_nan(b) ==> value(larger(a, b)) >= value(a) && value(larger(a, b))
            >= value(b),
        is_nan(a) ==> larger(a, b) == b,
        is_nan(b) && !is_nan(a) ==> larger(a, b) == a,
{
    if !is_nan(a) && !is_nan(b) {
        law_rank_orders_values(a, b);
        law_rank_orders_values(b, a);
    }
}

} // verus!
