use test_game::duration::Duration;
use test_game::characters::components::Stage;
use test_game::characters::player::{PlayerDamage, handle_player_death, player_shooting, AttackCooldown, MaxAttackCooldown};
use test_game::items::{spawn_lightning, ItemTooltips, ItemType};
use test_game::level_up_plugin::{handle_selection_pressed, upgrade_selection_buttons};
use test_game::mechanics::cooldown::Cooldown;
use test_game::mechanics::damage::Health;
use test_game::mobs::boss::{check_for_victory, fire_volleys_due, reset_boss_spawn, spawn_boss, BossSpawned};
use test_game::skills::skills_tooltips::{SkillTooltips, SkillType};
use test_game::sound::events::{PlayerSound, SkillSound, SoundEffectKind, UiSound};
use test_game::sprites::{AtlasGrid, Character, Item, Skill, SpriteKind};
use test_game::state::GameState;
use test_game::text::decimal_string;

#[test]
fn skill_tooltips_in_order() {
    let t = SkillTooltips::default();
    assert_eq!(t.0[0], (SkillType::PassiveDamageIncrease, "Damage", "Increase All Damage Done By 10%."));
    assert_eq!(t.0[4], (SkillType::PassiveHealthIncrease, "Vitality", "Increase max health by 1."));
    assert_eq!(t.0[5].0, SkillType::ActiveThorLightning);
    assert_eq!(t.0[5].1, "Thor's Lightning");
}

#[test]
fn item_tooltips_in_order() {
    let t = ItemTooltips::default();
    assert_eq!(t.0[3].0, ItemType::ActiveOrbitingOrb);
    assert_eq!(t.0[3].1, "Orb Jutsu");
    assert_eq!(t.0[1].2, "Increase Movement Speed By 10%.");
}

#[test]
fn sprite_paths_and_atlases() {
    assert_eq!(SpriteKind::Item(Item::Coin).image_path(), "loot/coin.png");
    assert_eq!(SpriteKind::Character(Character::Warrior).image_path(), "characters/viking.png");
    assert_eq!(SpriteKind::Skill(Skill::FireBall).image_path(), "skills/fireball.png");
    assert_eq!(
        SpriteKind::Item(Item::XPOrb).atlas_layout(),
        Some((AtlasGrid { tile_width: 32, tile_height: 32, columns: 7, rows: 1 }, 0))
    );
    assert_eq!(
        SpriteKind::Character(Character::Jotun).atlas_layout(),
        Some((AtlasGrid { tile_width: 22, tile_height: 20, columns: 4, rows: 1 }, 0))
    );
    assert_eq!(SpriteKind::Character(Character::Wizard).atlas_layout(), None);
    assert_eq!(SpriteKind::Skill(Skill::OrbJutsu).atlas_layout(), None);
}

#[test]
fn sound_files() {
    let (path, life) = SoundEffectKind::UiSound(UiSound::ClickButtonSound).get_sound_info();
    assert_eq!(path, "sounds/effects/ui/button-click.mp3");
    assert_eq!(life.as_secs(), 1);
    assert_eq!(
        SoundEffectKind::SkillSound(SkillSound::OrbJutsu).get_sound_info().0,
        "sounds/effects/skills/pew-laser.wav"
    );
    assert_eq!(
        SoundEffectKind::PlayerSound(PlayerSound::PlayerTakeDamage).get_sound_info().0,
        "sounds/effects/player-sound/take-damage.mp3"
    );
}

#[test]
fn player_death_loses_the_run() {
    assert_eq!(handle_player_death(Health(0)), Some(GameState::Loss));
    assert_eq!(handle_player_death(Health(1)), None);
}

#[test]
fn boss_spawns_once_per_run() {
    let mut spawned = BossSpawned::default();
    assert!(spawn_boss(&mut spawned, Duration::zero()));
    assert!(!spawn_boss(&mut spawned, Duration::from_secs(10)));
    reset_boss_spawn(&mut spawned);
    assert_eq!(spawned, BossSpawned(false));
    assert!(spawn_boss(&mut spawned, Duration::from_secs(10)));
}

#[test]
fn boss_death_wins() {
    assert_eq!(check_for_victory(Some(Health(0))), Some(GameState::Win));
    assert_eq!(check_for_victory(Some(Health(3))), None);
    assert_eq!(check_for_victory(None), None);
}

#[test]
fn wizard_fire_volleys() {
    let mut cd = Cooldown::default();
    cd.tick(Duration::from_secs(7));
    assert_eq!(fire_volleys_due(Health(0), &mut cd, Duration::from_secs(3)), 0);
    assert_eq!(fire_volleys_due(Health(5), &mut cd, Duration::from_secs(3)), 2);
    assert_eq!(fire_volleys_due(Health(5), &mut cd, Duration::from_secs(3)), 0);
    cd.tick(Duration::from_secs(9));
    assert_eq!(fire_volleys_due(Health(5), &mut cd, Duration::from_secs(3)), 1);
}

#[test]
fn lightning_strikes_first_enemy_in_reach() {
    let mut cd = Cooldown::default();
    cd.tick(Duration::from_secs(10));
    let mut healths = vec![9, 9, 9];
    let strikes = spawn_lightning(&mut cd, Duration::from_secs(5), &vec![false, true, true], &mut healths, 3);
    assert_eq!(strikes, 2);
    assert_eq!(healths, vec![9, 3, 9]);
    cd.tick(Duration::from_secs(5));
    let mut none_in_reach = vec![4];
    assert_eq!(spawn_lightning(&mut cd, Duration::from_secs(5), &vec![false], &mut none_in_reach, 3), 1);
    assert_eq!(none_in_reach, vec![4]);
}

#[test]
fn stage_starts_at_start() {
    assert_eq!(Stage::default(), Stage::Start);
}

#[test]
fn decimal_notation() {
    assert_eq!(decimal_string(0), "0");
    assert_eq!(decimal_string(9), "9");
    assert_eq!(decimal_string(10), "10");
    assert_eq!(decimal_string(18_446_744_073_709_551_615), "18446744073709551615");
}

#[test]
fn shooting_fires_per_elapsed_period() {
    let max = MaxAttackCooldown(Duration::from_millis(500));
    let mut cd = AttackCooldown(Cooldown::default());
    cd.0.tick(Duration::from_millis(1200));
    assert_eq!(player_shooting(true, &mut cd, max), 2);
    assert!(cd.0.is_ready(Duration::from_millis(200)));
    assert_eq!(player_shooting(false, &mut cd, max), 0);
    cd.0.tick(Duration::from_secs(2));
    assert_eq!(player_shooting(true, &mut cd, max), 1);
    assert!(!cd.0.is_ready(Duration::from_nanos(1)));
}

#[test]
fn level_up_selection() {
    let mut damage = PlayerDamage(10);
    assert_eq!(handle_selection_pressed(ItemType::PassiveDamageIncrease, &mut damage), Some(GameState::Running));
    assert_eq!(damage, PlayerDamage(11));
    assert_eq!(handle_selection_pressed(ItemType::PassiveMovementSpeedIncrease, &mut damage), Some(GameState::Running));
    assert_eq!(handle_selection_pressed(ItemType::PassivePickUpRadiusIncrease, &mut damage), Some(GameState::Running));
    assert_eq!(handle_selection_pressed(ItemType::ActiveOrbitingOrb, &mut damage), None);
    assert_eq!(damage, PlayerDamage(11));
}

#[test]
fn level_up_buttons_follow_the_tooltips() {
    let t = ItemTooltips::default();
    let buttons = upgrade_selection_buttons(&t);
    assert_eq!(buttons.len(), 6);
    assert_eq!(buttons[0], (ItemType::PassiveDamageIncrease, "Good Item", "Increase All Damage Done By 10%."));
    assert_eq!(buttons[5], (ItemType::ActiveThorLightning, "Good Item", "Lightning randomly strikes nearby enemies."));
}
