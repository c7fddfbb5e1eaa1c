//! The skills that a level-up can give.

pub mod skills_tooltips;
