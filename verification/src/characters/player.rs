use vstd::prelude::*;

use crate::duration::Duration;
use crate::mechanics::cooldown::{reset_outcome, Cooldown};
use crate::mechanics::damage::Health;
use crate::state::GameState;

verus! {

/// Marker of the player character.
#[derive(Clone, Copy, Debug, PartialEq, Eq)]
pub struct Player;

/// The most health points the player can have.
#[derive(Clone, Copy, Debug, PartialEq, Eq, Structural)]
pub struct MaxHealth(pub u32);

/// Damage of the player's primary attack.
#[derive(Clone, Copy, Debug, PartialEq, Eq, Structural)]
pub struct PlayerDamage(pub u32);

/// The shortest time between two primary attacks.
#[derive(Clone, Copy, Debug)]
pub struct MaxAttackCooldown(pub Duration);

/// Cooldown of an attack.
#[derive(Clone, Copy, Debug)]
pub struct AttackCooldown(pub Cooldown);

/// Cooldown of the player's invulnerability after a hit.
#[derive(Clone, Copy, Debug)]
pub struct Vulnerability(pub Cooldown);

/// How many primary attacks the player fires now. While the left mouse
/// button is held, every elapsed period of the attack cooldown fires one
/// (one while it is waiting); when it is released the cooldown starts
/// waiting and nothing is fired.
pub fn player_shooting(
    left_pressed: bool,
    attack_cooldown: &mut AttackCooldown,
    max_attack_cooldown: MaxAttackCooldown,
) -> (shots: u32)
    requires
        left_pressed ==> max_attack_cooldown.0@ > 0 && old(attack_cooldown).0@.0
            / max_attack_cooldown.0@ <= u32::MAX,
    ensures
        left_pressed ==> {
            let (t, w, c) = reset_outcome(
                old(attack_cooldown).0@.0,
                old(attack_cooldown).0@.1,
                max_attack_cooldown.0@,
            );
            &&& final(attack_cooldown).0@ == (t, w)
            &&& shots == c
        },
        !left_pressed ==> shots == 0 && final(attack_cooldown).0@ == (old(attack_cooldown).0@.0, true),
{
    if left_pressed {
        attack_cooldown.0.reset(max_attack_cooldown.0)
    } else {
        attack_cooldown.0.wait();
        0
    }
}

/// The run is lost when the player has no health left.
pub fn handle_player_death(player_health: Health) -> (next: Option<GameState>)
    ensures
        next == (if player_health.0 == 0 {
            Some(GameState::Loss)
        } else {
            None
        }),
{
    if player_health.0 == 0 {
        Some(GameState::Loss)
    } else {
        None
    }
}

} // verus!
