//! Goods in the hold of a ship.

use vstd::prelude::*;

verus! {

/// One kind of good in a hold, as the service reports it.
#[derive(Debug, Clone, PartialEq, Eq)]
pub struct Cargo {
    pub good: String,
    pub quantity: u32,
    pub total_volume: u32,
}

} // verus!
