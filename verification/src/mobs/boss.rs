use vstd::prelude::*;

use crate::duration::Duration;
use crate::mechanics::cooldown::{reset_and_wait_outcome, Cooldown};
use crate::mechanics::damage::Health;
use crate::state::GameState;

verus! {

/// Marker of the boss whose death wins the run.
#[derive(Clone, Copy, Debug, PartialEq, Eq)]
pub struct EndGameIfDead;

/// Number of fireballs in one volley of the wizard.
#[derive(Clone, Copy, Debug, PartialEq, Eq, Structural)]
pub struct FireVolleyCount(pub u32);

/// Whether the boss of the run has been spawned.
#[derive(Clone, Copy, Debug, PartialEq, Eq, Structural)]
pub struct BossSpawned(pub bool);

impl Default for BossSpawned {
    /// No boss yet.
    fn default() -> (b: BossSpawned)
        ensures
            b == BossSpawned(false),
    {
        BossSpawned(false)
    }
}

/// Whether the boss is due now: it comes once per run, as soon as the run
/// has lasted zero seconds, that is at once. Marks it as spawned.
pub fn spawn_boss(boss_spawned: &mut BossSpawned, in_game_time: Duration) -> (spawn: bool)
    ensures
        spawn == !old(boss_spawned).0,
        final(boss_spawned).0 == true,
{
    if !boss_spawned.0 && in_game_time.as_nanos() >= Duration::from_secs(60 * 0).as_nanos() {
        boss_spawned.0 = true;
        true
    } else {
        false
    }
}

/// The run is won when the first boss that ends the game has no health
/// left.
pub fn check_for_victory(boss_health: Option<Health>) -> (next: Option<GameState>)
    ensures
        next == (if boss_health matches Some(h) && h.0 == 0 {
            Some(GameState::Win)
        } else {
            None
        }),
{
    if let Some(health) = boss_health {
        if health.0 == 0 {
            return Some(GameState::Win);
        }
    }
    None
}

/// Forgets the boss when a run ends.
pub fn reset_boss_spawn(res: &mut BossSpawned)
    ensures
        *final(res) == BossSpawned(false),
{
    res.0 = false;
}

/// The number of fire volleys that a living wizard casts now: where its
/// cooldown is ready, every elapsed period gives a volley (one while it is
/// waiting) and the cooldown starts waiting again. A dead wizard casts none.
pub fn fire_volleys_due(health: Health, cooldown: &mut Cooldown, max_cooldown: Duration) -> (volleys: u32)
    requires
        health.0 > 0 && max_cooldown@ <= old(cooldown)@.0 ==> max_cooldown@ > 0 && old(cooldown)@.0
            / max_cooldown@ <= u32::MAX,
    ensures
        health.0 > 0 && max_cooldown@ <= old(cooldown)@.0 ==> {
            let (t, w, c) = reset_and_wait_outcome(
                old(cooldown)@.0,
                old(cooldown)@.1,
                max_cooldown@,
            );
            &&& final(cooldown)@ == (t, w)
            &&& volleys == c
        },
        !(health.0 > 0 && max_cooldown@ <= old(cooldown)@.0) ==> volleys == 0 && *final(cooldown)
            == *old(cooldown),
{
    if health.0 > 0 && cooldown.is_ready(max_cooldown) {
        cooldown.reset_and_wait(max_cooldown)
    } else {
        0
    }
}

} // verus!
