//! The size-change report of a successful repair: a signed kilobyte delta
//! (truncated toward zero) and the final size as a percentage of the
//! original (rounded to the nearest whole percent, halves up).

use vstd::prelude::*;

verus! {

/// The two numbers of the per-file size line.
#[derive(Clone, Copy, Debug, PartialEq, Eq, Structural)]
pub struct SizeChange {
    pub delta_kb: i128,
    pub percent: u128,
}

/// How many whole kilobytes the file grew by (negative: shrank by),
/// truncated toward zero.
pub open spec fn spec_delta_kb(size_before: int, size_after: int) -> int {
    if size_after >= size_before {
        (size_after - size_before) / 1000
    } else {
        -((size_before - size_after) / 1000)
    }
}

/// The final size as a percentage of the original, rounded to the nearest
/// whole percent with halves rounding up.
pub open spec fn spec_percent(size_before: int, size_after: int) -> int {
    (200 * size_after + size_before) / (2 * size_before)
}

/// Computes the size-change report for one repaired file.
pub fn size_change(size_before: usize, size_after: usize) -> (r: SizeChange)
    requires
        size_before > 0,
    ensures
        r.delta_kb == spec_delta_kb(size_before as int, size_after as int),
        r.percent == spec_percent(size_before as int, size_after as int),
{
    let delta_kb: i128 = if size_after >= size_before {
        ((size_after - size_before) / 1000) as i128
    } else {
        -(((size_before - size_after) / 1000) as i128)
    };
    let percent: u128 = (200u128 * (size_after as u128) + (size_before as u128)) / (2u128 * (
    size_before as u128));
    SizeChange { delta_kb, percent }
}

} // verus!
