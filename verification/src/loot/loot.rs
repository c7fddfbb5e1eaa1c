use vstd::prelude::*;

use crate::mechanics::damage::Health;
use crate::prestige::stats::Stats;
use crate::rng::GameRng;
use crate::sprites::{Item, SpriteKind};

verus! {

/// What kind of loot an entity is: 0 potion, 1 Thor's hammer, 2 magnet,
/// 3 coin.
#[derive(Clone, Copy, Debug, PartialEq, Eq, Structural)]
pub struct LootId(pub u32);

/// The four animation frames of an experience orb.
#[derive(Clone, Copy, Debug, PartialEq, Eq, Structural)]
pub struct AnimationIndices {
    pub first: usize,
    pub second: usize,
    pub third: usize,
    pub fourth: usize,
}

impl AnimationIndices {
    /// The frame that follows frame `index` when the animation timer fires:
    /// 0 to `second`, 1 to `third`, 2 to `fourth`, 3 to `first`.
    pub fn next_index(&self, index: usize) -> (next: usize)
        requires
            index < 4,
        ensures
            next == (if index == 0 {
                self.second
            } else if index == 1 {
                self.third
            } else if index == 2 {
                self.fourth
            } else {
                self.first
            }),
    {
        match index {
            0 => self.second,
            1 => self.third,
            2 => self.fourth,
            _ => self.first,
        }
    }
}

/// The loot that a roll of the loot die gives.
pub open spec fn loot_of_roll(roll: nat) -> Option<SpriteKind> {
    if roll == 0 {
        Some(SpriteKind::Item(Item::Potion))
    } else if roll == 1 {
        Some(SpriteKind::Item(Item::ThorsHammer))
    } else if roll == 2 {
        Some(SpriteKind::Item(Item::Magnet))
    } else if roll == 3 {
        Some(SpriteKind::Item(Item::Coin))
    } else {
        None
    }
}

/// The loot and its id that a roll of the loot die gives.
pub open spec fn loot_drop(roll: nat) -> Option<(LootId, SpriteKind)> {
    match loot_of_roll(roll) {
        Some(kind) => Some((LootId(roll as u32), kind)),
        None => None,
    }
}

/// The loot that a roll of the loot die gives, with its id: a potion,
/// Thor's hammer, a magnet or a coin for the rolls 0 to 3, nothing for
/// higher rolls.
pub fn loot_for_roll(roll: u32) -> (loot: Option<(LootId, SpriteKind)>)
    ensures
        loot is Some <==> roll < 4,
        loot matches Some((id, kind)) ==> id == LootId(roll) && loot_of_roll(roll as nat) == Some(
            kind,
        ),
        loot is None ==> loot_of_roll(roll as nat) is None,
        loot == loot_drop(roll as nat),
{
    if roll == 3 {
        return Some((LootId(roll), SpriteKind::Item(Item::Coin)));
    }
    let sprite_kind = match roll {
        0 => SpriteKind::Item(Item::Potion),
        1 => SpriteKind::Item(Item::ThorsHammer),
        2 => SpriteKind::Item(Item::Magnet),
        _ => return None,
    };
    Some((LootId(roll), sprite_kind))
}

/// Rolls the ten-sided loot die (a draw from `0..10`) for a dead enemy and
/// returns the loot that the roll gives, if any.
pub fn try_spawn_loot(rng: &mut GameRng) -> (loot: Option<(LootId, SpriteKind)>)
    ensures
        final(rng).draws().len() == old(rng).draws().len() + 1,
        final(rng).draws().drop_last() == old(rng).draws(),
        final(rng).draws().last().0 == 0 && final(rng).draws().last().1 == 10,
        final(rng).draws().last().2 < 10,
        loot == loot_drop(final(rng).draws().last().2 as nat),
        loot matches Some((id, kind)) ==> id.0 < 4 && loot_of_roll(id.0 as nat) == Some(kind),
{
    let loot_id = rng.gen_range_u32(0, 10);
    assert(rng.draws().drop_last() =~= old(rng).draws());
    loot_for_roll(loot_id)
}

/// What picking up a piece of loot did.
#[derive(Clone, Copy, Debug, PartialEq, Eq, Structural)]
pub enum PickupAction {
    /// A potion at full health stays on the ground.
    Keep,
    /// A potion gave back one health point.
    Healed,
    /// Thor's hammer: a bomb goes off where it lay.
    SpawnBomb,
    /// A magnet: every experience orb flies to the player.
    ActivateXpOrbs,
    /// A coin went to the prestige stats.
    CoinCollected,
}

/// Picks up the loot `loot_id` that the player touches. Every kind but a
/// potion at full health leaves the ground.
pub fn pickup_loot(loot_id: LootId, health: &mut Health, max_health: u32, stats: &mut Stats) -> (action: PickupAction)
    requires
        loot_id.0 < 4,
        loot_id.0 == 3 ==> old(stats).coins + 1 <= u32::MAX,
    ensures
        loot_id.0 == 0 && old(health).0 < max_health ==> action == PickupAction::Healed
            && final(health).0 == old(health).0 + 1,
        loot_id.0 == 0 && old(health).0 >= max_health ==> action == PickupAction::Keep
            && *final(health) == *old(health),
        loot_id.0 == 1 ==> action == PickupAction::SpawnBomb,
        loot_id.0 == 2 ==> action == PickupAction::ActivateXpOrbs,
        loot_id.0 == 3 ==> action == PickupAction::CoinCollected
            && final(stats).coins == old(stats).coins + 1,
        loot_id.0 != 0 ==> *final(health) == *old(health),
        loot_id.0 != 3 ==> final(stats).coins == old(stats).coins,
        final(stats).damage_multiplier == old(stats).damage_multiplier,
        final(stats).maximum_health == old(stats).maximum_health,
        final(stats).health_regen == old(stats).health_regen,
{
    match loot_id.0 {
        0 => {
            if health.0 < max_health {
                health.0 += 1;
                PickupAction::Healed
            } else {
                PickupAction::Keep
            }
        },
        1 => PickupAction::SpawnBomb,
        2 => PickupAction::ActivateXpOrbs,
        _ => {
            crate::loot::coin::handle_coin_pickup(stats);
            PickupAction::CoinCollected
        },
    }
}

} // verus!
