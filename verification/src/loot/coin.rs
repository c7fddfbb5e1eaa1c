use vstd::prelude::*;

use crate::prestige::stats::Stats;

verus! {

/// Picking up a coin adds one coin to the prestige stats.
pub fn handle_coin_pickup(stats: &mut Stats)
    requires
        old(stats).coins + 1 <= u32::MAX,
    ensures
        final(stats).coins == old(stats).coins + 1,
        final(stats).damage_multiplier == old(stats).damage_multiplier,
        final(stats).maximum_health == old(stats).maximum_health,
        final(stats).health_regen == old(stats).health_regen,
{
    stats.update_coins_amount(1);
}

} // verus!
