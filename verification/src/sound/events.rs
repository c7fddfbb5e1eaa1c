use vstd::prelude::*;

use crate::duration::Duration;

verus! {

/// Sounds of the user interface.
#[derive(Clone, Copy, Debug, PartialEq, Eq, Structural)]
pub enum UiSound {
    HoverButtonSound,
    ClickButtonSound,
}

/// Sounds of skills.
#[derive(Clone, Copy, Debug, PartialEq, Eq, Structural)]
pub enum SkillSound {
    PrimaryAttack,
    OrbJutsu,
    LightningAttack,
}

/// Sounds of the player.
#[derive(Clone, Copy, Debug, PartialEq, Eq, Structural)]
pub enum PlayerSound {
    Levelup,
    PlayerTakeDamage,
}

/// Any sound effect, by group.
#[derive(Clone, Copy, Debug, PartialEq, Eq, Structural)]
pub enum SoundEffectKind {
    UiSound(UiSound),
    SkillSound(SkillSound),
    PlayerSound(PlayerSound),
}

/// Message asking for a sound effect to be played.
#[derive(Clone, Copy, Debug, PartialEq, Eq, Structural)]
pub struct PlaySoundEffectEvent(pub SoundEffectKind);

/// How long every sound effect entity is kept: one second.
pub open spec fn sound_life_time() -> nat {
    1_000_000_000
}

impl UiSound {
    /// The sound file.
    pub open spec fn sound_path(self) -> Seq<char> {
        match self {
            UiSound::HoverButtonSound => "sounds/effects/ui/button-hover.mp3"@,
            UiSound::ClickButtonSound => "sounds/effects/ui/button-click.mp3"@,
        }
    }

    /// The sound file and how long the sound is kept.
    pub fn get_sound_info(&self) -> (info: (&'static str, Duration))
        ensures
            info.0@ == self.sound_path(),
            info.1@ == sound_life_time(),
    {
        match self {
            UiSound::HoverButtonSound => ("sounds/effects/ui/button-hover.mp3", Duration::from_secs(1)),
            UiSound::ClickButtonSound => ("sounds/effects/ui/button-click.mp3", Duration::from_secs(1)),
        }
    }
}

impl SkillSound {
    /// The sound file.
    pub open spec fn sound_path(self) -> Seq<char> {
        match self {
            SkillSound::PrimaryAttack => "sounds/effects/skills/pew-laser.wav"@,
            SkillSound::OrbJutsu => "sounds/effects/skills/pew-laser.wav"@,
            SkillSound::LightningAttack => "sounds/effects/skills/pew-laser.wav"@,
        }
    }

    /// The sound file and how long the sound is kept.
    pub fn get_sound_info(&self) -> (info: (&'static str, Duration))
        ensures
            info.0@ == self.sound_path(),
            info.1@ == sound_life_time(),
    {
        match self {
            SkillSound::PrimaryAttack => ("sounds/effects/skills/pew-laser.wav", Duration::from_secs(1)),
            SkillSound::OrbJutsu => ("sounds/effects/skills/pew-laser.wav", Duration::from_secs(1)),
            SkillSound::LightningAttack => (
                "sounds/effects/skills/pew-laser.wav",
                Duration::from_secs(1),
            ),
        }
    }
}

impl PlayerSound {
    /// The sound file.
    pub open spec fn sound_path(self) -> Seq<char> {
        match self {
            PlayerSound::Levelup => "sounds/effects/player-sound/level-up.mp3"@,
            PlayerSound::PlayerTakeDamage => "sounds/effects/player-sound/take-damage.mp3"@,
        }
    }

    /// The sound file and how long the sound is kept.
    pub fn get_sound_info(&self) -> (info: (&'static str, Duration))
        ensures
            info.0@ == self.sound_path(),
            info.1@ == sound_life_time(),
    {
        match self {
            PlayerSound::Levelup => ("sounds/effects/player-sound/level-up.mp3", Duration::from_secs(1)),
            PlayerSound::PlayerTakeDamage => (
                "sounds/effects/player-sound/take-damage.mp3",
                Duration::from_secs(1),
            ),
        }
    }
}

impl SoundEffectKind {
    /// The sound file.
    pub open spec fn sound_path(self) -> Seq<char> {
        match self {
            SoundEffectKind::UiSound(ui) => ui.sound_path(),
            SoundEffectKind::SkillSound(skill) => skill.sound_path(),
            SoundEffectKind::PlayerSound(player_sound) => player_sound.sound_path(),
        }
    }

    /// The sound file and how long the sound is kept.
    pub fn get_sound_info(&self) -> (info: (&'static str, Duration))
        ensures
            info.0@ == self.sound_path(),
            info.1@ == sound_life_time(),
    {
        match self {
            SoundEffectKind::UiSound(ui) => ui.get_sound_info(),
            SoundEffectKind::SkillSound(skill) => skill.get_sound_info(),
            SoundEffectKind::PlayerSound(player_sound) => player_sound.get_sound_info(),
        }
    }
}

} // verus!
