use vstd::prelude::*;

use crate::duration::Duration;
use crate::mechanics::cooldown::Cooldown;

verus! {

/// Marker of enemies.
#[derive(Clone, Copy, Debug, PartialEq, Eq)]
pub struct Enemy;

/// Time between two enemy spawns.
#[derive(Clone, Copy, Debug)]
pub struct SpawnRate(pub Duration);

/// Cooldown of enemy spawns.
#[derive(Clone, Copy, Debug)]
pub struct SpawnCooldown(pub Cooldown);

} // verus!
