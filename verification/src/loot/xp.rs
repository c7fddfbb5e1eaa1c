use vstd::prelude::*;

verus! {

/// Whether an experience orb or coin flies towards the player.
#[derive(Clone, Copy, Debug, PartialEq, Eq, Structural)]
pub struct MagnetActive(pub bool);

/// A magnet makes every orb fly towards the player.
pub fn activate_all_xp_orbs(orbs: &mut Vec<MagnetActive>)
    ensures
        final(orbs).len() == old(orbs).len(),
        forall|i: int| 0 <= i < final(orbs).len() ==> final(orbs)[i] == MagnetActive(true),
{
    let mut i: usize = 0;
    while i < orbs.len()
        invariant
            0 <= i <= orbs.len(),
            orbs.len() == old(orbs).len(),
            forall|j: int| 0 <= j < i ==> orbs[j] == MagnetActive(true),
        decreases orbs.len() - i,
    {
        orbs.set(i, MagnetActive(true));
        i = i + 1;
    }
}

} // verus!
