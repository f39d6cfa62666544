//! The update rule for a single cell.

use vstd::prelude::*;

verus! {

/// The vitality of a living cell.
pub const V_MAX: u8 = 255;

/// The vitality that a cell with vitality `v` and `neighbors` living
/// neighbours has in the next generation.
pub open spec fn next_vitality(v: u8, neighbors: int) -> u8 {
    if v == V_MAX && (neighbors == 2 || neighbors == 3) {
        V_MAX
    } else if v != V_MAX && neighbors == 3 {
        V_MAX
    } else if v >= 1 {
        (v - 1) as u8
    } else {
        0
    }
}

/// Applies the update rule to one cell.
pub fn next_vitality_of(v: u8, neighbors: u8) -> (next: u8)
    ensures
        next == next_vitality(v, neighbors as int),
{
    if v == V_MAX && (neighbors == 2 || neighbors == 3) {
        V_MAX
    } else if v != V_MAX && neighbors == 3 {
        V_MAX
    } else if v >= 1 {
        v - 1
    } else {
        0
    }
}

} // verus!
