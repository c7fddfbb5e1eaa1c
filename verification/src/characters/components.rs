use vstd::prelude::*;

verus! {

/// The stage of a running game: first the common enemies, then the wizard.
#[derive(Clone, Copy, Debug, PartialEq, Eq, Hash, Structural)]
pub enum Stage {
    Start,
    Wizard,
}

impl Default for Stage {
    /// A run begins at the first stage.
    fn default() -> (s: Stage)
        ensures
            s == Stage::Start,
    {
        Stage::Start
    }
}

} // verus!
