pub mod armory;
pub mod battlefield;
pub mod bugs;
pub mod combat;
pub mod curve;
pub mod debug;
pub mod hive;
mod rng;
pub mod troopers;
pub mod utils;

use vstd::prelude::*;

verus! {

/// One whole in the fixed-point scheme used throughout the crate:
/// probabilities, stat multipliers and curve inputs are all expressed in
/// parts per million (ppm), so `1_000_000` stands for `1.0`.
pub const UNIT: u32 = 1_000_000;

/// A value in parts per million is a well-formed probability when it does
/// not exceed one whole.
pub open spec fn valid_prob(p: int) -> bool {
    0 <= p <= UNIT
}

} // verus!
