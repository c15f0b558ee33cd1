use vstd::prelude::*;

verus! {

/// The sum of `a` and `b`, held to the range of `i32`.
pub open spec fn clamped_sum(a: int, b: int) -> int {
    if a + b > i32::MAX {
        i32::MAX as int
    } else if a + b < i32::MIN {
        i32::MIN as int
    } else {
        a + b
    }
}

/// Adds two integers, saturating at `i32::MIN` and `i32::MAX` instead of wrapping.
///
/// Total: every pair of inputs is accepted and nothing panics.
pub fn add(a: i32, b: i32) -> (r: i32)
    ensures
        r == clamped_sum(a as int, b as int),
        i32::MIN <= a + b <= i32::MAX ==> r == a + b,
        a + b > i32::MAX ==> r == i32::MAX,
        a + b < i32::MIN ==> r == i32::MIN,
{
    let s: i64 = a as i64 + b as i64;
    if s > i32::MAX as i64 {
        i32::MAX
    } else if s < i32::MIN as i64 {
        i32::MIN
    } else {
        s as i32
    }
}

/// The saturated sum of any two `i32` values is itself an `i32` value.
pub proof fn lemma_add_total(a: i32, b: i32)
    ensures
        i32::MIN <= clamped_sum(a as int, b as int) <= i32::MAX,
{
}

/// Saturating addition does not depend on the order of its operands.
pub proof fn lemma_add_commutative(a: i32, b: i32)
    ensures
        clamped_sum(a as int, b as int) == clamped_sum(b as int, a as int),
{
}

/// Adding zero gives back the other operand.
pub proof fn lemma_add_zero(a: i32)
    ensures
        clamped_sum(a as int, 0) == a,
{
}

} // verus!
