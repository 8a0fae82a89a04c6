//! Integer arithmetic for the resize fallback.
//!
//! When no re-encoding brings a picture under its byte budget, both of its sides are multiplied
//! by `sqrt(budget / source_len)`, so that the pixel count shrinks by the ratio the byte count has
//! to shrink by. The square root is never taken: the scaled side is characterised, and computed,
//! with integer products only.

use vstd::prelude::*;

verus! {

/// `candidate / side <= sqrt(budget / source_len)`, written without division:
/// `candidate² · source_len <= side² · budget`.
pub open spec fn within_scale(candidate: int, side: int, budget: int, source_len: int) -> bool {
    candidate * candidate * source_len <= side * side * budget
}

/// `target` is `side · sqrt(budget / source_len)` rounded down, and capped at `u32::MAX`:
/// it is within scale and the next integer is not.
pub open spec fn is_scaled_side(target: int, side: int, budget: int, source_len: int) -> bool {
    &&& 0 <= target <= u32::MAX
    &&& within_scale(target, side, budget, source_len)
    &&& target < u32::MAX ==> !within_scale(target + 1, side, budget, source_len)
}

/// The scaled side as a function of its inputs. [`lemma_scaled_side_unique`] shows that
/// at most one value qualifies, and [`scale_side`] computes it, so one always does.
pub open spec fn scaled_side(side: u32, budget: usize, source_len: usize) -> u32 {
    choose|target: u32| is_scaled_side(target as int, side as int, budget as int, source_len as int)
}

/// Squares grow with their base, and so do their multiples by a non-negative factor.
pub proof fn lemma_within_scale_monotone(
    small: int,
    large: int,
    side: int,
    budget: int,
    source_len: int,
)
    requires
        0 <= small <= large,
        0 <= source_len,
        within_scale(large, side, budget, source_len),
    ensures
        within_scale(small, side, budget, source_len),
{
    assert(small * small <= large * large) by (nonlinear_arith)
        requires
            0 <= small <= large,
    ;
    assert(small * small * source_len <= large * large * source_len) by (nonlinear_arith)
        requires
            small * small <= large * large,
            0 <= source_len,
    ;
}

/// Two values that both qualify as the scaled side are the same value.
pub proof fn lemma_scaled_side_unique(
    first: int,
    second: int,
    side: int,
    budget: int,
    source_len: int,
)
    requires
        0 <= source_len,
        is_scaled_side(first, side, budget, source_len),
        is_scaled_side(second, side, budget, source_len),
    ensures
        first == second,
{
    if first < second {
        lemma_within_scale_monotone(first + 1, second, side, budget, source_len);
    } else if second < first {
        lemma_within_scale_monotone(second + 1, first, side, budget, source_len);
    }
}

/// Some value qualifies as the scaled side: going up from a candidate that is within scale,
/// the last one within scale is reached before `u32::MAX` is passed.
proof fn lemma_scaled_side_found(candidate: int, side: int, budget: int, source_len: int)
    requires
        0 <= candidate <= u32::MAX,
        within_scale(candidate, side, budget, source_len),
    ensures
        exists|target: u32| is_scaled_side(target as int, side, budget, source_len),
    decreases u32::MAX - candidate,
{
    if candidate == u32::MAX || !within_scale(candidate + 1, side, budget, source_len) {
        assert(is_scaled_side((candidate as u32) as int, side, budget, source_len));
    } else {
        lemma_scaled_side_found(candidate + 1, side, budget, source_len);
    }
}

/// [`scaled_side`] is the scaled side: the value it picks qualifies.
pub proof fn lemma_scaled_side_is_scaled(side: u32, budget: usize, source_len: usize)
    ensures
        is_scaled_side(
            scaled_side(side, budget, source_len) as int,
            side as int,
            budget as int,
            source_len as int,
        ),
{
    let s = side as int;
    let b = budget as int;
    assert(0 <= s * s * b) by (nonlinear_arith)
        requires
            0 <= s,
            0 <= b,
    ;
    assert(within_scale(0, s, b, source_len as int)) by (nonlinear_arith)
        requires
            0 <= s * s * b,
    ;
    lemma_scaled_side_found(0, s, b, source_len as int);
}

/// A source that is over its budget never grows: with `budget <= source_len` the scaled side
/// is at most the side.
pub proof fn lemma_scaled_side_shrinks(target: int, side: int, budget: int, source_len: int)
    requires
        0 <= side,
        0 <= budget <= source_len,
        0 < source_len,
        is_scaled_side(target, side, budget, source_len),
    ensures
        target <= side,
{
    if target > side {
        assert(target * target > side * side) by (nonlinear_arith)
            requires
                0 <= side < target,
        ;
        assert(target * target * source_len > side * side * source_len) by (nonlinear_arith)
            requires
                target * target > side * side,
                0 < source_len,
        ;
        assert(side * side * budget <= side * side * source_len) by (nonlinear_arith)
            requires
                0 <= budget <= source_len,
        ;
    }
}

/// Computes the scaled side by bisection over `0 ..= u32::MAX`.
///
/// No input is left out: with `source_len == 0` every candidate is within scale and the result is
/// `u32::MAX`; with `budget == 0` or `side == 0` the result is `0` unless `source_len` is `0` too.
pub fn scale_side(side: u32, budget: usize, source_len: usize) -> (target: u32)
    ensures
        is_scaled_side(target as int, side as int, budget as int, source_len as int),
        target == scaled_side(side, budget, source_len),
{
    let ghost s = side as int;
    let ghost b = budget as int;
    let ghost l = source_len as int;
    assert(s * s <= 0xFFFF_FFFF * 0xFFFF_FFFF) by (nonlinear_arith)
        requires
            0 <= s <= 0xFFFF_FFFF,
    ;
    assert(s * s * b <= 0xFFFF_FFFF * 0xFFFF_FFFF * 0xFFFF_FFFF_FFFF_FFFF) by (nonlinear_arith)
        requires
            0 <= s * s <= 0xFFFF_FFFF * 0xFFFF_FFFF,
            0 <= b <= 0xFFFF_FFFF_FFFF_FFFF,
    ;
    assert(0 <= s * s * b) by (nonlinear_arith)
        requires
            0 <= s,
            0 <= b,
    ;
    assert(within_scale(0, s, b, l)) by (nonlinear_arith)
        requires
            0 <= s * s * b,
    ;
    let square: u128 = (side as u128) * (side as u128);
    let area: u128 = square * (budget as u128);
    let len: u128 = source_len as u128;
    let mut low: u64 = 0;
    let mut high: u64 = 0x1_0000_0000;
    while high - low > 1
        invariant
            low < high <= 0x1_0000_0000,
            area == s * s * b,
            len == l,
            0 <= l <= 0xFFFF_FFFF_FFFF_FFFF,
            within_scale(low as int, s, b, l),
            high <= u32::MAX ==> !within_scale(high as int, s, b, l),
        decreases high - low,
    {
        let middle: u64 = low + (high - low) / 2;
        let ghost m = middle as int;
        assert(m * m <= 0xFFFF_FFFF * 0xFFFF_FFFF) by (nonlinear_arith)
            requires
                0 <= m <= 0xFFFF_FFFF,
        ;
        assert(m * m * l <= 0xFFFF_FFFF * 0xFFFF_FFFF * 0xFFFF_FFFF_FFFF_FFFF) by (nonlinear_arith)
            requires
                0 <= m * m <= 0xFFFF_FFFF * 0xFFFF_FFFF,
                0 <= l <= 0xFFFF_FFFF_FFFF_FFFF,
        ;
        let covered: u128 = (middle as u128) * (middle as u128) * len;
        if covered <= area {
            low = middle;
        } else {
            high = middle;
        }
    }
    proof {
        assert(is_scaled_side(low as int, s, b, l));
        let witness = low as u32;
        assert(is_scaled_side(witness as int, s, b, l));
        lemma_scaled_side_unique(
            scaled_side(side, budget, source_len) as int,
            low as int,
            s,
            b,
            l,
        );
    }
    low as u32
}

} // verus!
