use vstd::prelude::*;

pub mod sprites;

verus! {

/// Height in pixels of the common enemy sprite.
pub const ENEMY_HEIGHT: u32 = 20;
/// Width in pixels of the common enemy sprite.
pub const ENEMY_WIDTH: u32 = 22;
/// Height in pixels of the player sprite.
pub const PLAYER_HEIGHT: u32 = 20;
/// Width in pixels of the player sprite.
pub const PLAYER_WIDTH: u32 = 16;
/// Height in pixels of the wizard boss sprite.
pub const WIZARD_HEIGHT: u32 = 32;
/// Width in pixels of the wizard boss sprite.
pub const WIZARD_WIDTH: u32 = 32;

/// A sprite sheet cut into a grid of equal tiles.
#[derive(Clone, Copy, Debug, PartialEq, Eq, Structural)]
pub struct AtlasGrid {
    pub tile_width: u32,
    pub tile_height: u32,
    pub columns: u32,
    pub rows: u32,
}

/// Items that lie on the ground.
#[derive(Clone, Copy, Debug, PartialEq, Eq, Structural)]
pub enum Item {
    XPOrb,
    Magnet,
    Potion,
    ThorsHammer,
    Coin,
}

/// Characters: enemies, the player and bosses.
#[derive(Clone, Copy, Debug, PartialEq, Eq, Structural)]
pub enum Character {
    Jotun,
    Warrior,
    Wizard,
}

/// Visible effects of skills.
#[derive(Clone, Copy, Debug, PartialEq, Eq, Structural)]
pub enum Skill {
    PrimaryAttack,
    OrbJutsu,
    LightningAttack,
    FireBall,
}

/// What an entity looks like.
#[derive(Clone, Copy, Debug, PartialEq, Eq, Structural)]
pub enum SpriteKind {
    Item(Item),
    Character(Character),
    Skill(Skill),
}

impl Item {
    /// The image file of the item.
    pub open spec fn image_path_text(self) -> Seq<char> {
        match self {
            Item::XPOrb => "loot/rotating_orbs.png"@,
            Item::Magnet => "loot/magnet.png"@,
            Item::Potion => "loot/potion.png"@,
            Item::ThorsHammer => "loot/hammeritem.png"@,
            Item::Coin => "loot/coin.png"@,
        }
    }

    /// The image file of the item.
    pub fn image_path(&self) -> (p: &'static str)
        ensures
            p@ == self.image_path_text(),
    {
        match self {
            Item::XPOrb => "loot/rotating_orbs.png",
            Item::Magnet => "loot/magnet.png",
            Item::Potion => "loot/potion.png",
            Item::ThorsHammer => "loot/hammeritem.png",
            Item::Coin => "loot/coin.png",
        }
    }

    /// The grid of an animated item and the tile it starts on; `None` for
    /// a still image.
    pub fn atlas_layout(&self) -> (layout: Option<(AtlasGrid, usize)>)
        ensures
            layout == (match self {
                Item::XPOrb => Some(
                    (AtlasGrid { tile_width: 32, tile_height: 32, columns: 7, rows: 1 }, 0usize),
                ),
                _ => None,
            }),
    {
        match self {
            Item::XPOrb => Some(
                (AtlasGrid { tile_width: 32, tile_height: 32, columns: 7, rows: 1 }, 0),
            ),
            _ => None,
        }
    }
}

impl Character {
    /// The image file of the character.
    pub open spec fn image_path_text(self) -> Seq<char> {
        match self {
            Character::Jotun => "characters/jotun.png"@,
            Character::Warrior => "characters/viking.png"@,
            Character::Wizard => "characters/wizard.png"@,
        }
    }

    /// The image file of the character.
    pub fn image_path(&self) -> (p: &'static str)
        ensures
            p@ == self.image_path_text(),
    {
        match self {
            Character::Jotun => "characters/jotun.png",
            Character::Warrior => "characters/viking.png",
            Character::Wizard => "characters/wizard.png",
        }
    }

    /// The grid of the character's walking animation and the tile it starts
    /// on; `None` for a still image.
    pub fn atlas_layout(&self) -> (layout: Option<(AtlasGrid, usize)>)
        ensures
            layout == (match self {
                Character::Jotun => Some(
                    (
                        AtlasGrid {
                            tile_width: ENEMY_WIDTH,
                            tile_height: ENEMY_HEIGHT,
                            columns: 4,
                            rows: 1,
                        },
                        0usize,
                    ),
                ),
                Character::Warrior => Some(
                    (
                        AtlasGrid {
                            tile_width: PLAYER_WIDTH,
                            tile_height: PLAYER_HEIGHT,
                            columns: 4,
                            rows: 1,
                        },
                        0usize,
                    ),
                ),
                _ => None,
            }),
    {
        match self {
            Character::Jotun => Some(
                (
                    AtlasGrid {
                        tile_width: ENEMY_WIDTH,
                        tile_height: ENEMY_HEIGHT,
                        columns: 4,
                        rows: 1,
                    },
                    0,
                ),
            ),
            Character::Warrior => Some(
                (
                    AtlasGrid {
                        tile_width: PLAYER_WIDTH,
                        tile_height: PLAYER_HEIGHT,
                        columns: 4,
                        rows: 1,
                    },
                    0,
                ),
            ),
            _ => None,
        }
    }
}

impl Skill {
    /// The image file of the skill effect.
    pub open spec fn image_path_text(self) -> Seq<char> {
        match self {
            Skill::PrimaryAttack => "skills/axe.png"@,
            Skill::OrbJutsu => "skills/orb_purple.png"@,
            Skill::LightningAttack => "skills/lightning-strike.png"@,
            Skill::FireBall => "skills/fireball.png"@,
        }
    }

    /// The image file of the skill effect.
    pub fn image_path(&self) -> (p: &'static str)
        ensures
            p@ == self.image_path_text(),
    {
        match self {
            Skill::PrimaryAttack => "skills/axe.png",
            Skill::OrbJutsu => "skills/orb_purple.png",
            Skill::LightningAttack => "skills/lightning-strike.png",
            Skill::FireBall => "skills/fireball.png",
        }
    }

    /// Skill effects are still images.
    pub fn atlas_layout(&self) -> (layout: Option<(AtlasGrid, usize)>)
        ensures
            layout is None,
    {
        None
    }
}

impl SpriteKind {
    /// The image file of the sprite.
    pub open spec fn image_path_text(self) -> Seq<char> {
        match self {
            SpriteKind::Item(x) => x.image_path_text(),
            SpriteKind::Character(x) => x.image_path_text(),
            SpriteKind::Skill(x) => x.image_path_text(),
        }
    }

    /// The image file of the sprite.
    pub fn image_path(&self) -> (p: &'static str)
        ensures
            p@ == self.image_path_text(),
    {
        match self {
            SpriteKind::Item(x) => x.image_path(),
            SpriteKind::Character(x) => x.image_path(),
            SpriteKind::Skill(x) => x.image_path(),
        }
    }

    /// The animation grid of the sprite and its first tile, if it is
    /// animated.
    pub fn atlas_layout(&self) -> (layout: Option<(AtlasGrid, usize)>)
        ensures
            layout == (match self {
                SpriteKind::Item(Item::XPOrb) => Some(
                    (AtlasGrid { tile_width: 32, tile_height: 32, columns: 7, rows: 1 }, 0usize),
                ),
                SpriteKind::Character(Character::Jotun) => Some(
                    (
                        AtlasGrid {
                            tile_width: ENEMY_WIDTH,
                            tile_height: ENEMY_HEIGHT,
                            columns: 4,
                            rows: 1,
                        },
                        0usize,
                    ),
                ),
                SpriteKind::Character(Character::Warrior) => Some(
                    (
                        AtlasGrid {
                            tile_width: PLAYER_WIDTH,
                            tile_height: PLAYER_HEIGHT,
                            columns: 4,
                            rows: 1,
                        },
                        0usize,
                    ),
                ),
                _ => None,
            }),
    {
        match self {
            SpriteKind::Item(x) => x.atlas_layout(),
            SpriteKind::Character(x) => x.atlas_layout(),
            SpriteKind::Skill(x) => x.atlas_layout(),
        }
    }
}

} // verus!
