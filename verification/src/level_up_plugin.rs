use vstd::prelude::*;

use crate::characters::player::PlayerDamage;
use crate::items::{ItemTooltips, ItemType};
use crate::state::GameState;

verus! {

/// The buttons of the level-up screen: one per entry of the tooltip table,
/// in table order, each with the heading "Good Item" above the upgrade's
/// description.
pub fn upgrade_selection_buttons(tooltips: &ItemTooltips) -> (buttons: Vec<(ItemType, &'static str, &'static str)>)
    ensures
        buttons.len() == 6,
        forall|i: int|
            0 <= i < 6 ==> #[trigger] buttons@[i] == (tooltips.0@[i].0, "Good Item", tooltips.0@[i].2),
{
    let mut buttons: Vec<(ItemType, &'static str, &'static str)> = Vec::new();
    let mut i: usize = 0;
    while i < 6
        invariant
            i <= 6,
            buttons.len() == i,
            forall|j: int|
                0 <= j < i ==> #[trigger] buttons@[j] == (tooltips.0@[j].0, "Good Item", tooltips.0@[j].2),
        decreases 6 - i,
    {
        let (item_type, _title, tooltip) = tooltips.0[i];
        buttons.push((item_type, "Good Item", tooltip));
        i = i + 1;
    }
    buttons
}

/// What pressing an upgrade on the level-up screen does. The damage upgrade
/// adds one point of player damage; the movement speed and pick-up radius
/// upgrades (each ten percent more, in floating point, applied by the
/// caller) leave the damage as it is. These three resume the run. The other
/// upgrades have no effect on this screen.
pub fn handle_selection_pressed(item_type: ItemType, player_damage: &mut PlayerDamage) -> (next: Option<GameState>)
    requires
        item_type == ItemType::PassiveDamageIncrease ==> old(player_damage).0 + 1 <= u32::MAX,
    ensures
        item_type == ItemType::PassiveDamageIncrease ==> final(player_damage).0 == old(player_damage).0 + 1,
        item_type != ItemType::PassiveDamageIncrease ==> *final(player_damage) == *old(player_damage),
        next == (match item_type {
            ItemType::PassiveDamageIncrease => Some(GameState::Running),
            ItemType::PassiveMovementSpeedIncrease => Some(GameState::Running),
            ItemType::PassivePickUpRadiusIncrease => Some(GameState::Running),
            _ => None,
        }),
{
    match item_type {
        ItemType::PassiveDamageIncrease => {
            player_damage.0 += 1;
            Some(GameState::Running)
        },
        ItemType::PassiveMovementSpeedIncrease => Some(GameState::Running),
        ItemType::PassivePickUpRadiusIncrease => Some(GameState::Running),
        _ => None,
    }
}

} // verus!
