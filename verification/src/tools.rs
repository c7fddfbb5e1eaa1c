//! Bookkeeping of the damage dealt in a run.

pub mod damage_tracking;
