use vstd::prelude::*;

verus! {

/// The skill upgrades that can be chosen at a level-up.
#[derive(Clone, Copy, Debug, PartialEq, Eq, Hash, Structural)]
pub enum SkillType {
    PassiveDamageIncrease,
    PassiveMovementSpeedIncrease,
    PassivePickUpRadiusIncrease,
    PassiveHealthIncrease,
    ActiveOrbitingOrb,
    ActiveThorLightning,
}

/// For every skill upgrade: its kind, its title and what it does.
pub struct SkillTooltips(pub [(SkillType, &'static str, &'static str); 6]);

impl Default for SkillTooltips {
    /// The six skill upgrades in the order in which the level-up screen
    /// shows them.
    fn default() -> (t: SkillTooltips)
        ensures
            t.0@ == seq![
                (SkillType::PassiveDamageIncrease, "Damage", "Increase All Damage Done By 10%."),
                (
                    SkillType::PassiveMovementSpeedIncrease,
                    "Movement Speed",
                    "Increase Movement Speed By 10%.",
                ),
                (
                    SkillType::PassivePickUpRadiusIncrease,
                    "Pick Up Radius",
                    "Increase Pickup Radius By 10%.",
                ),
                (
                    SkillType::ActiveOrbitingOrb,
                    "Orb Jutsu",
                    "Spawn an orbiting orb that damages enemies it comes in contact with.",
                ),
                (SkillType::PassiveHealthIncrease, "Vitality", "Increase max health by 1."),
                (
                    SkillType::ActiveThorLightning,
                    "Thor's Lightning",
                    "Lightning randomly strikes nearby enemies.",
                ),
            ],
    {
        let t = SkillTooltips(
            [
                (SkillType::PassiveDamageIncrease, "Damage", "Increase All Damage Done By 10%."),
                (
                    SkillType::PassiveMovementSpeedIncrease,
                    "Movement Speed",
                    "Increase Movement Speed By 10%.",
                ),
                (
                    SkillType::PassivePickUpRadiusIncrease,
                    "Pick Up Radius",
                    "Increase Pickup Radius By 10%.",
                ),
                (
                    SkillType::ActiveOrbitingOrb,
                    "Orb Jutsu",
                    "Spawn an orbiting orb that damages enemies it comes in contact with.",
                ),
                (SkillType::PassiveHealthIncrease, "Vitality", "Increase max health by 1."),
                (
                    SkillType::ActiveThorLightning,
                    "Thor's Lightning",
                    "Lightning randomly strikes nearby enemies.",
                ),
            ],
        );
        assert(t.0@ =~= seq![
            (SkillType::PassiveDamageIncrease, "Damage", "Increase All Damage Done By 10%."),
            (
                SkillType::PassiveMovementSpeedIncrease,
                "Movement Speed",
                "Increase Movement Speed By 10%.",
            ),
            (SkillType::PassivePickUpRadiusIncrease, "Pick Up Radius", "Increase Pickup Radius By 10%."),
            (
                SkillType::ActiveOrbitingOrb,
                "Orb Jutsu",
                "Spawn an orbiting orb that damages enemies it comes in contact with.",
            ),
            (SkillType::PassiveHealthIncrease, "Vitality", "Increase max health by 1."),
            (
                SkillType::ActiveThorLightning,
                "Thor's Lightning",
                "Lightning randomly strikes nearby enemies.",
            ),
        ]);
        t
    }
}

} // verus!
