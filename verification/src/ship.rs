//! Ships of a player.

use vstd::prelude::*;
use crate::cargo::Cargo;

verus! {

/// A ship, as the service reports it.
#[derive(Debug, Clone, PartialEq, Eq)]
pub struct Ship {
    pub id: String,
    pub kind: String,
    pub class: String,
    pub manufacturer: String,
    pub location: String,
    pub x: i32,
    pub y: i32,
    pub speed: u32,
    pub weapons: u32,
    pub plating: u32,
    pub max_cargo: u32,
    pub space_available: u32,
    pub cargo: Vec<Cargo>,
}

} // verus!
