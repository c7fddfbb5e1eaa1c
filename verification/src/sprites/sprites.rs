use vstd::prelude::*;

verus! {

/// Item sprites.
#[derive(Clone, Copy, Debug, PartialEq, Eq, Structural)]
pub enum ItemSpriteKind {
    XPOrb,
    XPMagnet,
    Potion,
    Ligthning,
}

/// Sprites of the user interface.
#[derive(Clone, Copy, Debug, PartialEq, Eq, Structural)]
pub enum UISpriteKind {
    Hearts,
}

/// Character sprites.
#[derive(Clone, Copy, Debug, PartialEq, Eq, Structural)]
pub enum CharacterSpriteKind {
    Jotun,
    WarriorMob,
}

/// Skill sprites.
#[derive(Clone, Copy, Debug, PartialEq, Eq, Structural)]
pub enum SkillSpriteKind {
    PrimaryAttack,
    OrbJutsu,
    LigthningAttack,
}

/// Any sprite, by group.
#[derive(Clone, Copy, Debug, PartialEq, Eq, Structural)]
pub enum SpriteKind {
    ItemSpriteKind(ItemSpriteKind),
    UISpriteKind(UISpriteKind),
    CharacterSpriteKind(CharacterSpriteKind),
    SkillSpriteKind(SkillSpriteKind),
}

} // verus!
