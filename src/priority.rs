use vstd::prelude::*;

verus! {

/// A priority clamped to `[1, 5]`.
pub open spec fn clamped_priority(p: int) -> int {
    if p < 1 {
        1
    } else if p > 5 {
        5
    } else {
        p
    }
}

/// Clamps a priority to `[1, 5]`.
pub fn clamp_priority(p: u32) -> (r: u32)
    ensures
        r as int == clamped_priority(p as int),
{
    if p < 1 {
        1
    } else if p > 5 {
        5
    } else {
        p
    }
}

} // verus!
