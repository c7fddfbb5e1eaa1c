use vstd::prelude::*;

use std::collections::HashMap;

use crate::duration::Duration;
use crate::mechanics::cooldown::{reset_outcome, Cooldown};
use crate::text::{decimal, decimal_string};
use crate::tools::damage_tracking::{DamageTracker, DamageTrackerKind};

verus! {

broadcast use vstd::std_specs::hash::group_hash_axioms;

/// Damage of an attack before the prestige multiplier.
#[derive(Clone, Copy, Debug, PartialEq, Eq, Structural)]
pub struct BaseDamage(pub u32);

/// Damage that an attack deals per hit.
#[derive(Clone, Copy, Debug, PartialEq, Eq, Structural)]
pub struct Damage(pub u32);

/// Health points of a character; at zero it is dead.
#[derive(Clone, Copy, Debug, PartialEq, Eq, Structural)]
pub struct Health(pub u32);

/// The entities that a damaging entity has already hit; it can hit each of
/// them only once in its lifetime.
#[derive(Debug, Default)]
pub struct HitList(pub Vec<u64>);

/// Per-entity cooldowns of a damaging entity that hits the same entity again
/// only once in a while.
#[derive(Debug, Default)]
pub struct EntityHitCooldown(pub HashMap<u64, Cooldown>);

/// The damage tracker after `damage` is counted for `kind`, if there is a
/// kind.
pub open spec fn counted(
    before: DamageTracker,
    kind: Option<DamageTrackerKind>,
    damage: nat,
    after: DamageTracker,
) -> bool {
    match kind {
        Some(k) => {
            &&& after.amount_of(k) == before.amount_of(k) + damage
            &&& after.track(k).spell == before.track(k).spell
            &&& forall|o: DamageTrackerKind| o != k ==> after.track(o) == before.track(o)
        },
        None => after == before,
    }
}

/// Whether counting `damage` for `kind` fits in the tracker.
pub open spec fn trackable(tracker: DamageTracker, kind: Option<DamageTrackerKind>, damage: nat) -> bool {
    kind matches Some(k) ==> tracker.amount_of(k) + damage <= u32::MAX
}

fn track_damage(tracker: &mut DamageTracker, kind: Option<DamageTrackerKind>, damage: u32)
    requires
        trackable(*old(tracker), kind, damage as nat),
    ensures
        counted(*old(tracker), kind, damage as nat, *final(tracker)),
{
    if let Some(k) = kind {
        tracker.update(k, damage);
    }
}

fn hitlist_contains(hitlist: &HitList, enemy: u64) -> (found: bool)
    ensures
        found == hitlist.0@.contains(enemy),
{
    let mut i: usize = 0;
    while i < hitlist.0.len()
        invariant
            0 <= i <= hitlist.0.len(),
            forall|j: int| 0 <= j < i ==> hitlist.0@[j] != enemy,
        decreases hitlist.0.len() - i,
    {
        if hitlist.0[i] == enemy {
            return true;
        }
        i = i + 1;
    }
    false
}

/// One hit of a damaging entity with a hit list on an enemy that it touches.
/// An enemy already on the list is skipped. Otherwise an enemy with health
/// for the whole hit loses `damage`, the damage is counted for `kind`, the
/// enemy goes on the list and a damage message is due (`true`); an enemy
/// with less health is left at zero, without a message.
pub fn hit_with_hitlist(
    health: &mut Health,
    damage: Damage,
    tracker: &mut DamageTracker,
    kind: Option<DamageTrackerKind>,
    hitlist: &mut HitList,
    enemy: u64,
) -> (message: bool)
    requires
        !old(hitlist).0@.contains(enemy) && damage.0 <= old(health).0 ==> trackable(
            *old(tracker),
            kind,
            damage.0 as nat,
        ),
    ensures
        old(hitlist).0@.contains(enemy) ==> {
            &&& !message
            &&& *final(health) == *old(health)
            &&& *final(tracker) == *old(tracker)
            &&& final(hitlist).0@ == old(hitlist).0@
        },
        !old(hitlist).0@.contains(enemy) && damage.0 <= old(health).0 ==> {
            &&& message
            &&& final(health).0 == old(health).0 - damage.0
            &&& counted(*old(tracker), kind, damage.0 as nat, *final(tracker))
            &&& final(hitlist).0@ == old(hitlist).0@.push(enemy)
        },
        !old(hitlist).0@.contains(enemy) && damage.0 > old(health).0 ==> {
            &&& !message
            &&& final(health).0 == 0
            &&& *final(tracker) == *old(tracker)
            &&& final(hitlist).0@ == old(hitlist).0@
        },
{
    if hitlist_contains(hitlist, enemy) {
        return false;
    }
    match health.0.checked_sub(damage.0) {
        Some(new_health) => {
            track_damage(tracker, kind, health.0 - new_health);
            health.0 = new_health;
            hitlist.0.push(enemy);
            true
        },
        None => {
            health.0 = 0;
            false
        },
    }
}

/// What `hit_repeatedly` leaves of `health` and how many hits land, for
/// `count` hits of `damage`: hits land while the health pays for them, and
/// the first hit that it does not pay for leaves it at zero.
pub open spec fn repeated_hits_outcome(health: nat, damage: nat, count: nat) -> (nat, nat) {
    if damage == 0 {
        (health, count)
    } else if count <= health / damage {
        ((health - count * damage) as nat, count)
    } else {
        (0, health / damage)
    }
}

/// `count` hits of `damage` on an enemy, as a damaging entity with per-entity
/// cooldowns deals them; every landed hit is counted for `kind` and is due a
/// damage message. Returns the number of landed hits.
pub fn hit_repeatedly(
    health: &mut Health,
    damage: Damage,
    count: u32,
    tracker: &mut DamageTracker,
    kind: Option<DamageTrackerKind>,
) -> (landed: u32)
    requires
        trackable(
            *old(tracker),
            kind,
            (repeated_hits_outcome(old(health).0 as nat, damage.0 as nat, count as nat).1 * damage.0) as nat,
        ),
    ensures
        (final(health).0 as nat, landed as nat) == repeated_hits_outcome(
            old(health).0 as nat,
            damage.0 as nat,
            count as nat,
        ),
        counted(*old(tracker), kind, (landed * damage.0) as nat, *final(tracker)),
{
    let ghost h0: int = health.0 as int;
    let ghost d: int = damage.0 as int;
    let ghost t0 = *tracker;
    let ghost outcome = repeated_hits_outcome(h0 as nat, d as nat, count as nat);
    let mut landed: u32 = 0;
    let mut i: u32 = 0;
    let mut broke = false;
    while i < count
        invariant_except_break
            i <= count,
            landed == i,
            !broke,
            health.0 == h0 - i * d,
            i * d <= h0,
            counted(t0, kind, (i * d) as nat, *tracker),
            trackable(t0, kind, (outcome.1 * d) as nat),
            d == damage.0,
            outcome == repeated_hits_outcome(h0 as nat, d as nat, count as nat),
        ensures
            broke ==> landed * d <= h0 && health.0 == 0 && h0 - landed * d < d && landed < count,
            !broke ==> landed == count && health.0 == h0 - count * d && count * d <= h0,
            counted(t0, kind, (landed * d) as nat, *tracker),
        decreases count - i,
    {
        match health.0.checked_sub(damage.0) {
            Some(new_health) => {
                proof {
                    assert((i + 1) * d == i * d + d) by (nonlinear_arith);
                    if d > 0 {
                        assert(i + 1 <= h0 / d) by {
                            vstd::arithmetic::div_mod::lemma_div_is_ordered((i + 1) * d, h0, d);
                            vstd::arithmetic::div_mod::lemma_div_multiples_vanish(i + 1, d);
                            vstd::arithmetic::mul::lemma_mul_is_commutative(i + 1, d);
                        }
                    }
                    assert(outcome.1 >= i + 1);
                    assert((i + 1) * d <= outcome.1 * d) by (nonlinear_arith)
                        requires i + 1 <= outcome.1, d >= 0;
                }
                track_damage(tracker, kind, health.0 - new_health);
                health.0 = new_health;
                landed = landed + 1;
                i = i + 1;
            },
            None => {
                health.0 = 0;
                broke = true;
                break;
            },
        }
    }
    proof {
        if broke {
            assert(d > 0);
            vstd::arithmetic::div_mod::lemma_fundamental_div_mod_converse(
                h0,
                d,
                landed as int,
                h0 - landed * d,
            );
            if count <= h0 / d {
                assert(false);
            }
        } else if d > 0 {
            assert(count <= h0 / d) by {
                vstd::arithmetic::div_mod::lemma_div_is_ordered(count * d, h0, d);
                vstd::arithmetic::div_mod::lemma_div_multiples_vanish(count as int, d);
                vstd::arithmetic::mul::lemma_mul_is_commutative(count as int, d);
            }
        }
    }
    landed
}

/// Law: repeated hits never raise health, never deal more damage than the
/// health there was, and stop short of the asked count only when the
/// health is used up. Where the health pays for every hit, all land;
/// where it does not, as many land as it pays for in full and the health
/// ends at zero.
pub proof fn lemma_repeated_hits_bounded(health: nat, damage: nat, count: nat)
    ensures
        ({
            let (left, landed) = repeated_hits_outcome(health, damage, count);
            &&& left <= health
            &&& landed <= count
            &&& landed * damage <= health
            &&& left == health - landed * damage || left == 0
            &&& landed < count ==> left == 0
            &&& count * damage <= health ==> landed == count && left == health - count * damage
            &&& health < count * damage ==> left == 0 && landed * damage <= health < (landed + 1)
                * damage
        }),
{
    if damage > 0 {
        let q = health / damage;
        vstd::arithmetic::div_mod::lemma_fundamental_div_mod(health as int, damage as int);
        vstd::arithmetic::mul::lemma_mul_is_commutative(q as int, damage as int);
        assert((q + 1) * damage == q * damage + damage) by (nonlinear_arith);
        if count <= q {
            vstd::arithmetic::mul::lemma_mul_inequality(count as int, q as int, damage as int);
        } else {
            vstd::arithmetic::mul::lemma_mul_inequality(q + 1 as int, count as int, damage as int);
        }
    }
}

/// The text that rises from a damaged enemy: the damage in decimal.
pub fn damage_text(damage: Damage) -> (s: String)
    ensures
        s@ == decimal(damage.0 as nat),
{
    decimal_string(damage.0 as u64)
}

/// The cooldown that `enemy` has in `cooldowns`, or a fresh one.
pub open spec fn cooldown_of(cooldowns: Map<u64, Cooldown>, enemy: u64) -> (nat, bool) {
    if cooldowns.contains_key(enemy) {
        cooldowns[enemy]@
    } else {
        (0, false)
    }
}

/// Resets the cooldown that a damaging entity keeps for `enemy` (a fresh one
/// where it has none) and returns how many hits are due.
pub fn entity_hit_count(cooldowns: &mut EntityHitCooldown, enemy: u64, period: Duration) -> (count: u32)
    requires
        period@ > 0,
        cooldown_of(old(cooldowns).0@, enemy).0 / period@ <= u32::MAX,
    ensures
        final(cooldowns).0@.dom() == old(cooldowns).0@.dom().insert(enemy),
        forall|e: u64| e != enemy && old(cooldowns).0@.contains_key(e) ==> final(cooldowns).0@[e]
            == old(cooldowns).0@[e],
        ({
            let (timer, waiting) = cooldown_of(old(cooldowns).0@, enemy);
            let (t, w, c) = reset_outcome(timer, waiting, period@);
            &&& final(cooldowns).0@[enemy]@ == (t, w)
            &&& count == c
        }),
{
    let mut cd = match cooldowns.0.get(&enemy) {
        Some(existing) => *existing,
        None => Cooldown::default(),
    };
    let count = cd.reset(period);
    cooldowns.0.insert(enemy, cd);
    count
}

/// Whether enemy `i` can be struck: it is touched and still alive.
pub open spec fn is_target(touching: Seq<bool>, healths: Seq<u32>, i: int) -> bool {
    0 <= i < touching.len() && touching[i] && healths[i] > 0
}

/// The first enemy that a damaging entity with a shared cooldown strikes:
/// the first one that it touches and that is still alive.
pub open spec fn first_target(touching: Seq<bool>, healths: Seq<u32>) -> Option<int> {
    if exists|i: int| is_target(touching, healths, i) {
        Some(
            choose|i: int|
                is_target(touching, healths, i) && forall|j: int|
                    0 <= j < i ==> !is_target(touching, healths, j),
        )
    } else {
        None
    }
}

proof fn lemma_lowest_target_exists(touching: Seq<bool>, healths: Seq<u32>, k: int)
    requires
        is_target(touching, healths, k),
    ensures
        exists|i: int|
            is_target(touching, healths, i) && forall|j: int|
                0 <= j < i ==> !is_target(touching, healths, j),
    decreases k,
{
    if exists|j: int| 0 <= j < k && is_target(touching, healths, j) {
        let j = choose|j: int| 0 <= j < k && is_target(touching, healths, j);
        lemma_lowest_target_exists(touching, healths, j);
    } else {
        assert(is_target(touching, healths, k) && forall|j: int|
            0 <= j < k ==> !is_target(touching, healths, j));
    }
}

/// Which enemy a strike under a shared cooldown hits: where some enemy is
/// touched and has health left, it is the one with the lowest index among
/// them (touched, alive, and no enemy before it both touched and alive);
/// where none is, no enemy is struck.
pub proof fn lemma_first_target_is_lowest(touching: Seq<bool>, healths: Seq<u32>)
    requires
        touching.len() == healths.len(),
    ensures
        (exists|k: int| 0 <= k < touching.len() && touching[k] && healths[k] > 0) ==> {
            &&& first_target(touching, healths) is Some
            &&& ({
                let i = first_target(touching, healths).unwrap();
                &&& 0 <= i < touching.len()
                &&& touching[i]
                &&& healths[i] > 0
                &&& forall|j: int| 0 <= j < i ==> !(touching[j] && healths[j] > 0)
            })
        },
        !(exists|k: int| 0 <= k < touching.len() && touching[k] && healths[k] > 0) ==> first_target(
            touching,
            healths,
        ) is None,
{
    if exists|k: int| 0 <= k < touching.len() && touching[k] && healths[k] > 0 {
        let k = choose|k: int| 0 <= k < touching.len() && touching[k] && healths[k] > 0;
        assert(is_target(touching, healths, k));
        lemma_lowest_target_exists(touching, healths, k);
        let i = first_target(touching, healths).unwrap();
        assert(is_target(touching, healths, i));
        assert forall|j: int| 0 <= j < i implies !(touching[j] && healths[j] > 0) by {
            assert(!is_target(touching, healths, j));
        }
    } else {
        assert(!exists|k: int| is_target(touching, healths, k));
    }
}

/// One step of a damaging entity with a shared attack cooldown (it hits at
/// most one enemy per period). When the cooldown is ready, the first enemy
/// that it touches and that is alive is struck: its health goes down by the
/// damage (not below zero), the cooldown is reset, the damage is counted for
/// `kind` and the index of the enemy is returned. Otherwise nothing changes.
pub fn strike_first_enemy(
    attack_cooldown: &mut Cooldown,
    max_cooldown: Duration,
    touching: &Vec<bool>,
    healths: &mut Vec<u32>,
    damage: Damage,
    tracker: &mut DamageTracker,
    kind: Option<DamageTrackerKind>,
) -> (struck: Option<usize>)
    requires
        touching.len() == old(healths).len(),
        max_cooldown@ <= old(attack_cooldown)@.0 && first_target(touching@, old(healths)@) is Some
            ==> {
            &&& max_cooldown@ > 0
            &&& old(attack_cooldown)@.0 / max_cooldown@ <= u32::MAX
            &&& trackable(*old(tracker), kind, damage.0 as nat)
        },
    ensures
        max_cooldown@ > old(attack_cooldown)@.0 || first_target(touching@, old(healths)@) is None
            ==> {
            &&& struck is None
            &&& *final(attack_cooldown) == *old(attack_cooldown)
            &&& final(healths)@ == old(healths)@
            &&& *final(tracker) == *old(tracker)
        },
        max_cooldown@ <= old(attack_cooldown)@.0 && first_target(touching@, old(healths)@) is Some
            ==> {
            let i = first_target(touching@, old(healths)@).unwrap();
            let (t, w, _) = reset_outcome(
                old(attack_cooldown)@.0,
                old(attack_cooldown)@.1,
                max_cooldown@,
            );
            &&& struck == Some(i as usize)
            &&& final(attack_cooldown)@ == (t, w)
            &&& final(healths)@ == old(healths)@.update(
                i,
                (if old(healths)@[i] >= damage.0 {
                    (old(healths)@[i] - damage.0) as u32
                } else {
                    0u32
                }),
            )
            &&& counted(*old(tracker), kind, damage.0 as nat, *final(tracker))
        },
{
    if !attack_cooldown.is_ready(max_cooldown) {
        return None;
    }
    let mut i: usize = 0;
    while i < touching.len()
        invariant
            0 <= i <= touching.len(),
            touching.len() == healths.len(),
            healths@ == old(healths)@,
            *attack_cooldown == *old(attack_cooldown),
            *tracker == *old(tracker),
            max_cooldown@ <= old(attack_cooldown)@.0,
            max_cooldown@ <= old(attack_cooldown)@.0 && first_target(touching@, old(healths)@) is Some
                ==> {
                &&& max_cooldown@ > 0
                &&& old(attack_cooldown)@.0 / max_cooldown@ <= u32::MAX
                &&& trackable(*old(tracker), kind, damage.0 as nat)
            },
            forall|j: int| 0 <= j < i ==> !is_target(touching@, healths@, j),
        decreases touching.len() - i,
    {
        if touching[i] {
            if healths[i] != 0 {
                proof {
                    let ii = i as int;
                    assert(is_target(touching@, healths@, ii));
                    assert(is_target(touching@, healths@, ii) && forall|j: int|
                        0 <= j < ii ==> !is_target(touching@, healths@, j));
                    let c = first_target(touching@, healths@).unwrap();
                    assert(is_target(touching@, healths@, c));
                    assert(c == ii);
                }
                attack_cooldown.reset(max_cooldown);
                let h = healths[i];
                healths.set(i, h.saturating_sub(damage.0));
                track_damage(tracker, kind, damage.0);
                return Some(i);
            }
        }
        i = i + 1;
    }
    assert(!exists|j: int| is_target(touching@, healths@, j));
    None
}

/// How a step of enemy contact damage ended for the player.
#[derive(Clone, Copy, Debug, PartialEq, Eq, Structural)]
pub enum PlayerHit {
    /// The player was hit recently and cannot be hit yet.
    Invulnerable,
    /// The player could be hit but no enemy touches it.
    Vulnerable,
    /// An enemy hit the player: one health point is lost, the invulnerability
    /// starts again and the hurt sound is due.
    Hit,
}

/// The time for which the player cannot be hit again: two seconds.
pub open spec fn invulnerability_period() -> nat {
    2_000_000_000
}

/// Enemy contact damage to the player: where the player has been vulnerable
/// for two seconds and an enemy touches it, it loses one health point (not
/// below zero) and its vulnerability cooldown is reset.
pub fn handle_damage_to_player(health: &mut Health, vulnerability: &mut Cooldown, touched: bool) -> (outcome: PlayerHit)
    requires
        invulnerability_period() <= old(vulnerability)@.0 && touched ==> old(vulnerability)@.0
            / invulnerability_period() <= u32::MAX,
    ensures
        old(vulnerability)@.0 < invulnerability_period() ==> outcome == PlayerHit::Invulnerable
            && *final(health) == *old(health) && *final(vulnerability) == *old(vulnerability),
        invulnerability_period() <= old(vulnerability)@.0 && !touched ==> outcome
            == PlayerHit::Vulnerable && *final(health) == *old(health) && *final(vulnerability)
            == *old(vulnerability),
        invulnerability_period() <= old(vulnerability)@.0 && touched ==> {
            let (t, w, _) = reset_outcome(
                old(vulnerability)@.0,
                old(vulnerability)@.1,
                invulnerability_period(),
            );
            &&& outcome == PlayerHit::Hit
            &&& final(health).0 == (if old(health).0 > 0 {
                old(health).0 - 1
            } else {
                0
            })
            &&& final(vulnerability)@ == (t, w)
        },
{
    let invuln_timer = Duration::from_secs(2);
    if vulnerability.is_ready(invuln_timer) {
        if touched {
            health.0 = health.0.saturating_sub(1);
            vulnerability.reset(invuln_timer);
            return PlayerHit::Hit;
        }
        PlayerHit::Vulnerable
    } else {
        PlayerHit::Invulnerable
    }
}

} // verus!
