use vstd::prelude::*;

verus! {

/// Marker for the part of the game that plays music and sound effects.
#[derive(Clone, Copy, Debug, PartialEq, Eq)]
pub struct SoundPlugin;

} // verus!
