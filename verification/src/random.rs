//! The source of random grid coordinates.

use vstd::prelude::*;

verus! {

/// Draws an integer from the process-wide generator of `macroquad::rand`
/// (`gen_range`, which macroquad takes over from the crate `quad-rand`).
///
/// The generator scales a 32-bit draw into `[low, high)` in double precision
/// and cuts the fraction off; it does not panic, whatever the bounds. The
/// contract claims that the result lies in `[low, high)`, and claims it only
/// for bounds between 0 and 2^20, where every step of that computation is
/// exact. Which number of the range comes back depends on the generator's
/// state and is left open.
#[verifier::external_body]
pub(crate) fn gen_range(low: i32, high: i32) -> (drawn: i32)
    requires
        0 <= low < high <= 0x10_0000,
    ensures
        low <= drawn < high,
{
    macroquad::rand::gen_range(low, high)
}

} // verus!
