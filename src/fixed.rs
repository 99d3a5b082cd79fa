//! Fixed-point levels: `UNITY` stands for a level of 1.0.
use vstd::prelude::*;

verus! {

/// The level that stands for 1.0 (2 to the 24th).
pub const UNITY: u32 = 16777216;

/// The product of a level `a` and a value `b`, rounded down: `a * b / UNITY`.
pub open spec fn scaled(a: int, b: int) -> int {
    a * b / (UNITY as int)
}

/// Scaling by a level of at most 1.0 never increases a value.
pub proof fn lemma_scaled_bounds(a: int, b: int)
    requires
        0 <= a <= UNITY,
        0 <= b,
    ensures
        0 <= scaled(a, b) <= b,
        a == UNITY ==> scaled(a, b) == b,
{
    let u = UNITY as int;
    assert(0 <= a * b) by (nonlinear_arith)
        requires 0 <= a, 0 <= b;
    assert(a * b <= u * b) by (nonlinear_arith)
        requires a <= u, 0 <= b;
    assert((u * b) / u == b) by (nonlinear_arith)
        requires u > 0;
    vstd::arithmetic::div_mod::lemma_div_is_ordered(a * b, u * b, u);
    vstd::arithmetic::div_mod::lemma_div_pos_is_pos(a * b, u);
}

/// Multiplies `b` by the level `a`, which is at most 1.0.
pub fn mul_level(a: u32, b: u32) -> (r: u32)
    requires
        a <= UNITY,
    ensures
        r == scaled(a as int, b as int),
        r <= b,
{
    proof {
        lemma_scaled_bounds(a as int, b as int);
    }
    assert((a as u64) * (b as u64) <= 0xffff_ffff_ffff_ffffu64) by (nonlinear_arith)
        requires a <= 0xffff_ffffu64, b <= 0xffff_ffffu64;
    let p: u64 = (a as u64) * (b as u64);
    (p / (UNITY as u64)) as u32
}

} // verus!
