use vstd::prelude::*;
use crate::grid::{cell_of, in_grid, Point, SQUARES};

verus! {

/// Calls `macroquad::rand::gen_range` on two `i16` bounds. That function
/// scales the generator's next 32-bit output to a fraction of at least 0
/// and below 1, adds that fraction of `high - low` to `low` and drops what
/// follows the decimal point. For bounds that are not negative the result
/// is therefore at least `low` and below `high`; which number it is depends
/// on the generator's state, and nothing is claimed about that.
#[verifier::external_body]
fn gen_range_i16(low: i16, high: i16) -> (drawn: i16)
    requires
        0 <= low < high,
    ensures
        low <= drawn < high,
{
    macroquad::rand::gen_range(low, high)
}

/// Draws a cell of the playing field, first its column, then its row. Any
/// cell can come out, also one that the snake occupies.
pub fn random_point() -> (p: Point)
    ensures
        in_grid(cell_of(p)),
{
    let x: i16 = gen_range_i16(0, SQUARES);
    let y: i16 = gen_range_i16(0, SQUARES);
    (x, y)
}

} // verus!
