use vstd::prelude::*;

verus! {

/// Marker for the part of the game that saves the prestige stats when a run
/// or the upgrade screen is left.
#[derive(Clone, Copy, Debug, PartialEq, Eq)]
pub struct SaveGamePlugin;

} // verus!
