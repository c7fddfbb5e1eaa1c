//! Timing and combat rules.

pub mod cooldown;
pub mod damage;
