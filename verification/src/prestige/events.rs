use vstd::prelude::*;

verus! {

/// Message asking for the prestige stats to be written to the save file.
#[derive(Clone, Copy, Debug, PartialEq, Eq)]
pub struct SaveGameStatsEventToFile;

/// Message asking for the prestige stats to be kept in memory.
#[derive(Clone, Copy, Debug, PartialEq, Eq)]
pub struct SaveGameStatsEventToMemory;

} // verus!
