//! The arithmetic of the speed curves: where on the span between minimum and
//! maximum speed a position `num / den` of the ramp lies.

use vstd::prelude::*;

verus! {

/// The speed above the minimum at position `num / den` of a ramp that is
/// `span` units high, rounded down.
pub open spec fn ramp_offset(num: int, den: int, span: int) -> int {
    (num * span) / den
}

/// A position below the whole ramp gives an offset within the span.
pub proof fn lemma_ramp_offset_bounds(num: int, den: int, span: int)
    requires
        0 <= num < den,
        0 <= span,
    ensures
        0 <= ramp_offset(num, den, span) <= span,
{
    assert(0 <= num * span <= den * span) by (nonlinear_arith)
        requires
            0 <= num < den,
            0 <= span,
    ;
    assert(0 <= (num * span) / den <= span) by (nonlinear_arith)
        requires
            0 < den,
            0 <= num * span <= den * span,
    ;
}

/// A ramp never falls as the position advances.
pub proof fn lemma_ramp_offset_monotonic(num1: int, num2: int, den: int, span: int)
    requires
        0 <= num1 <= num2,
        0 < den,
        0 <= span,
    ensures
        ramp_offset(num1, den, span) <= ramp_offset(num2, den, span),
{
    assert(num1 * span <= num2 * span) by (nonlinear_arith)
        requires
            0 <= num1 <= num2,
            0 <= span,
    ;
    vstd::arithmetic::div_mod::lemma_div_is_ordered(num1 * span, num2 * span, den);
}

/// The cube of a temperature difference.
pub open spec fn cube(x: int) -> int {
    x * x * x
}

/// Cubing keeps the order of non-negative numbers.
pub proof fn lemma_cube_monotonic(x: int, y: int)
    requires
        0 <= x <= y,
    ensures
        0 <= cube(x) <= cube(y),
{
    assert(0 <= x * x * x <= y * y * y) by (nonlinear_arith)
        requires
            0 <= x <= y,
    ;
}

/// Cubing keeps the strict order of non-negative numbers.
pub proof fn lemma_cube_strict(x: int, y: int)
    requires
        0 <= x < y,
    ensures
        cube(x) < cube(y),
{
    assert(x * x * x < y * y * y) by (nonlinear_arith)
        requires
            0 <= x < y,
    ;
}

/// The speed above the minimum at position `num / den` of a ramp `span` high.
pub(crate) fn offset_on_ramp(num: u64, den: u64, span: u32) -> (offset: u32)
    requires
        num < den,
        num * span <= u64::MAX,
    ensures
        offset == ramp_offset(num as int, den as int, span as int),
        offset <= span,
{
    proof {
        lemma_ramp_offset_bounds(num as int, den as int, span as int);
    }
    let scaled: u64 = num * (span as u64);
    (scaled / den) as u32
}

} // verus!
