use vstd::prelude::*;

verus! {

/// Marker for the part of the game that drops, animates and picks up loot.
#[derive(Clone, Copy, Debug, PartialEq, Eq)]
pub struct LootPlugin;

} // verus!
