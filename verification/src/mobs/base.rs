use vstd::prelude::*;

verus! {

/// Marker of simple mobs.
#[derive(Clone, Copy, Debug, PartialEq, Eq)]
pub struct Mob;

/// Marker of elite mobs.
#[derive(Clone, Copy, Debug, PartialEq, Eq)]
pub struct Elite;

/// Marker of boss mobs.
#[derive(Clone, Copy, Debug, PartialEq, Eq)]
pub struct Boss;

} // verus!
