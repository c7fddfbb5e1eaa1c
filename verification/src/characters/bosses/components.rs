use vstd::prelude::*;

verus! {

/// Which bosses have appeared in the run.
#[derive(Clone, Copy, Debug, PartialEq, Eq, Structural)]
pub enum BossSpawnHistory {
    Wizard(bool),
}

} // verus!
