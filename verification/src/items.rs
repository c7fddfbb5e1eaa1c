use vstd::prelude::*;

use crate::duration::Duration;
use crate::mechanics::cooldown::{reset_outcome, Cooldown};

verus! {

/// The upgrades that the level-up screen offers.
#[derive(Clone, Copy, Debug, PartialEq, Eq, Hash, Structural)]
pub enum ItemType {
    PassiveDamageIncrease,
    PassiveMovementSpeedIncrease,
    PassivePickUpRadiusIncrease,
    PassiveHealthIncrease,
    ActiveOrbitingOrb,
    ActiveThorLightning,
}

/// For every upgrade of the level-up screen: its kind, its title and what
/// it does.
pub struct ItemTooltips(pub [(ItemType, &'static str, &'static str); 6]);

impl Default for ItemTooltips {
    /// The six upgrades in the order in which the level-up screen shows them.
    fn default() -> (t: ItemTooltips)
        ensures
            t.0@ == seq![
                (ItemType::PassiveDamageIncrease, "Damage", "Increase All Damage Done By 10%."),
                (
                    ItemType::PassiveMovementSpeedIncrease,
                    "Movement Speed",
                    "Increase Movement Speed By 10%.",
                ),
                (
                    ItemType::PassivePickUpRadiusIncrease,
                    "Pick Up Radius",
                    "Increase Pickup Radius By 10%.",
                ),
                (
                    ItemType::ActiveOrbitingOrb,
                    "Orb Jutsu",
                    "Spawn an orbiting orb that damages enemies it comes in contact with.",
                ),
                (ItemType::PassiveHealthIncrease, "Vitality", "Increase max health by 1."),
                (
                    ItemType::ActiveThorLightning,
                    "Thor's Lightning",
                    "Lightning randomly strikes nearby enemies.",
                ),
            ],
    {
        let t = ItemTooltips(
            [
                (ItemType::PassiveDamageIncrease, "Damage", "Increase All Damage Done By 10%."),
                (
                    ItemType::PassiveMovementSpeedIncrease,
                    "Movement Speed",
                    "Increase Movement Speed By 10%.",
                ),
                (
                    ItemType::PassivePickUpRadiusIncrease,
                    "Pick Up Radius",
                    "Increase Pickup Radius By 10%.",
                ),
                (
                    ItemType::ActiveOrbitingOrb,
                    "Orb Jutsu",
                    "Spawn an orbiting orb that damages enemies it comes in contact with.",
                ),
                (ItemType::PassiveHealthIncrease, "Vitality", "Increase max health by 1."),
                (
                    ItemType::ActiveThorLightning,
                    "Thor's Lightning",
                    "Lightning randomly strikes nearby enemies.",
                ),
            ],
        );
        assert(t.0@ =~= seq![
            (ItemType::PassiveDamageIncrease, "Damage", "Increase All Damage Done By 10%."),
            (
                ItemType::PassiveMovementSpeedIncrease,
                "Movement Speed",
                "Increase Movement Speed By 10%.",
            ),
            (ItemType::PassivePickUpRadiusIncrease, "Pick Up Radius", "Increase Pickup Radius By 10%."),
            (
                ItemType::ActiveOrbitingOrb,
                "Orb Jutsu",
                "Spawn an orbiting orb that damages enemies it comes in contact with.",
            ),
            (ItemType::PassiveHealthIncrease, "Vitality", "Increase max health by 1."),
            (
                ItemType::ActiveThorLightning,
                "Thor's Lightning",
                "Lightning randomly strikes nearby enemies.",
            ),
        ]);
        t
    }
}

/// The first enemy within reach of the lightning, if any.
pub open spec fn first_in_range(in_range: Seq<bool>) -> Option<int> {
    if exists|i: int| 0 <= i < in_range.len() && in_range[i] {
        Some(
            choose|i: int|
                0 <= i < in_range.len() && in_range[i] && forall|j: int|
                    0 <= j < i ==> !in_range[j],
        )
    } else {
        None
    }
}

proof fn lemma_lowest_in_range_exists(in_range: Seq<bool>, k: int)
    requires
        0 <= k < in_range.len(),
        in_range[k],
    ensures
        exists|i: int|
            0 <= i < in_range.len() && in_range[i] && forall|j: int| 0 <= j < i ==> !in_range[j],
    decreases k,
{
    if exists|j: int| 0 <= j < k && in_range[j] {
        let j = choose|j: int| 0 <= j < k && in_range[j];
        lemma_lowest_in_range_exists(in_range, j);
    } else {
        assert(0 <= k < in_range.len() && in_range[k] && forall|j: int| 0 <= j < k ==> !in_range[j]);
    }
}

/// Which enemy the lightning strikes: where some enemy is within reach, the
/// one with the lowest index among them (within reach, and no enemy before
/// it within reach); where none is, no enemy is struck.
pub proof fn lemma_first_in_range_is_lowest(in_range: Seq<bool>)
    ensures
        (exists|k: int| 0 <= k < in_range.len() && in_range[k]) ==> {
            &&& first_in_range(in_range) is Some
            &&& ({
                let i = first_in_range(in_range).unwrap();
                &&& 0 <= i < in_range.len()
                &&& in_range[i]
                &&& forall|j: int| 0 <= j < i ==> !in_range[j]
            })
        },
        !(exists|k: int| 0 <= k < in_range.len() && in_range[k]) ==> first_in_range(in_range) is None,
{
    if exists|k: int| 0 <= k < in_range.len() && in_range[k] {
        let k = choose|k: int| 0 <= k < in_range.len() && in_range[k];
        lemma_lowest_in_range_exists(in_range, k);
    }
}

/// `health` after `strikes` strikes of `damage`, none of which goes below
/// zero.
pub open spec fn struck_health(health: nat, damage: nat, strikes: nat) -> nat {
    if strikes * damage <= health {
        (health - strikes * damage) as nat
    } else {
        0
    }
}

/// Each strike takes `damage` off the health, never below zero, and no
/// strike leaves the health as it was.
pub proof fn lemma_struck_health_step(health: nat, damage: nat, strikes: nat)
    ensures
        struck_health(health, damage, 0) == health,
        struck_health(health, damage, strikes + 1) == (if struck_health(health, damage, strikes)
            >= damage {
            (struck_health(health, damage, strikes) - damage) as nat
        } else {
            0nat
        }),
{
    assert((strikes + 1) * damage == strikes * damage + damage) by (nonlinear_arith);
    assert(0 * damage == 0);
}

fn first_in_range_index(in_range: &Vec<bool>) -> (first: Option<usize>)
    ensures
        first matches Some(k) ==> first_in_range(in_range@) == Some(k as int) && k < in_range.len(),
        first is None ==> first_in_range(in_range@) is None,
{
    let mut i: usize = 0;
    while i < in_range.len()
        invariant
            0 <= i <= in_range.len(),
            forall|j: int| 0 <= j < i ==> !in_range@[j],
        decreases in_range.len() - i,
    {
        if in_range[i] {
            proof {
                let ii = i as int;
                assert(0 <= ii < in_range@.len() && in_range@[ii] && forall|j: int|
                    0 <= j < ii ==> !in_range@[j]);
                let c = first_in_range(in_range@).unwrap();
                assert(in_range@[c]);
                assert(c == ii);
            }
            return Some(i);
        }
        i = i + 1;
    }
    None
}

/// Thor's lightning: for every period of its cooldown that has passed, the
/// first enemy within reach (dead or alive) is struck for `damage` (not
/// below zero). After each strike the cooldown is set waiting, since the
/// strike does not mark a target as found. Returns the number of strikes.
pub fn spawn_lightning(
    attack_cooldown: &mut Cooldown,
    max_cooldown: Duration,
    in_range: &Vec<bool>,
    healths: &mut Vec<u32>,
    damage: u32,
) -> (strikes: u32)
    requires
        in_range.len() == old(healths).len(),
        max_cooldown@ > 0,
        old(attack_cooldown)@.0 / max_cooldown@ <= u32::MAX,
    ensures
        ({
            let (t, w, c) = reset_outcome(
                old(attack_cooldown)@.0,
                old(attack_cooldown)@.1,
                max_cooldown@,
            );
            &&& strikes == c
            &&& final(attack_cooldown)@ == (t, if c > 0 { true } else { w })
            &&& final(healths)@ == (match first_in_range(in_range@) {
                Some(i) => old(healths)@.update(
                    i,
                    struck_health(old(healths)@[i] as nat, damage as nat, c) as u32,
                ),
                None => old(healths)@,
            })
        }),
{
    let strikes = attack_cooldown.reset(max_cooldown);
    let first = first_in_range_index(in_range);
    let ghost h0 = healths@;
    let ghost after_reset = attack_cooldown@;
    proof {
        if let Some(i) = first {
            assert(h0.update(i as int, struck_health(h0[i as int] as nat, damage as nat, 0) as u32) =~= h0);
        }
    }
    let mut n: u32 = 0;
    while n < strikes
        invariant
            n <= strikes,
            healths.len() == h0.len(),
            in_range.len() == h0.len(),
            first matches Some(k) ==> first_in_range(in_range@) == Some(k as int) && k < h0.len(),
            first is None ==> first_in_range(in_range@) is None,
            healths@ == (match first {
                Some(i) => h0.update(i as int, struck_health(h0[i as int] as nat, damage as nat, n as nat) as u32),
                None => h0,
            }),
            n > 0 ==> attack_cooldown@ == (after_reset.0, true),
            n == 0 ==> attack_cooldown@ == after_reset,
        decreases strikes - n,
    {
        if let Some(i) = first {
            let h = healths[i];
            proof {
                let d = damage as nat;
                let hv = h0[i as int] as nat;
                assert((n + 1) * d == n * d + d) by (nonlinear_arith);
                assert(h == struck_health(hv, d, n as nat));
            }
            healths.set(i, h.saturating_sub(damage));
        }
        attack_cooldown.wait();
        n = n + 1;
    }
    proof {
        if let Some(i) = first {
            assert(healths@ =~= old(healths)@.update(
                i as int,
                struck_health(old(healths)@[i as int] as nat, damage as nat, strikes as nat) as u32,
            ));
        }
    }
    strikes
}

} // verus!
