use test_game::duration::Duration;
use test_game::mechanics::cooldown::Cooldown;
use test_game::mechanics::damage::{
    damage_text, entity_hit_count, handle_damage_to_player, hit_repeatedly, hit_with_hitlist,
    strike_first_enemy, Damage, EntityHitCooldown, Health, HitList, PlayerHit,
};
use test_game::tools::damage_tracking::{DamageTracker, DamageTrackerKind};

#[test]
fn hitlist_hits_each_enemy_once() {
    let mut health = Health(10);
    let mut tracker = DamageTracker::default();
    let mut hitlist = HitList::default();
    let kind = Some(DamageTrackerKind::PrimaryAttack);
    assert!(hit_with_hitlist(&mut health, Damage(4), &mut tracker, kind, &mut hitlist, 7));
    assert_eq!(health, Health(6));
    assert_eq!(hitlist.0, vec![7]);
    assert_eq!(tracker.get_total_damage(), 4);
    assert!(!hit_with_hitlist(&mut health, Damage(4), &mut tracker, kind, &mut hitlist, 7));
    assert_eq!(health, Health(6));
    assert_eq!(tracker.get_total_damage(), 4);
}

#[test]
fn hitlist_hit_that_health_cannot_pay_leaves_zero() {
    let mut health = Health(3);
    let mut tracker = DamageTracker::default();
    let mut hitlist = HitList::default();
    let sent = hit_with_hitlist(
        &mut health,
        Damage(4),
        &mut tracker,
        Some(DamageTrackerKind::OrbJutsu),
        &mut hitlist,
        1,
    );
    assert!(!sent);
    assert_eq!(health, Health(0));
    assert!(hitlist.0.is_empty());
    assert_eq!(tracker.get_total_damage(), 0);
}

#[test]
fn repeated_hits_stop_when_health_runs_out() {
    let mut tracker = DamageTracker::default();
    let mut health = Health(10);
    let landed = hit_repeatedly(&mut health, Damage(3), 5, &mut tracker, Some(DamageTrackerKind::OrbJutsu));
    assert_eq!(landed, 3);
    assert_eq!(health, Health(0));
    assert_eq!(tracker.get_total_damage(), 9);

    let mut health = Health(10);
    let landed = hit_repeatedly(&mut health, Damage(3), 2, &mut tracker, None);
    assert_eq!(landed, 2);
    assert_eq!(health, Health(4));
    assert_eq!(tracker.get_total_damage(), 9);

    let mut health = Health(10);
    assert_eq!(hit_repeatedly(&mut health, Damage(0), 4, &mut tracker, None), 4);
    assert_eq!(health, Health(10));

    let mut health = Health(9);
    assert_eq!(hit_repeatedly(&mut health, Damage(3), 3, &mut tracker, None), 3);
    assert_eq!(health, Health(0));
}

#[test]
fn entity_cooldowns_are_kept_per_enemy() {
    let mut cds = EntityHitCooldown::default();
    assert_eq!(entity_hit_count(&mut cds, 4, Duration::from_secs(1)), 0);
    assert!(cds.0.contains_key(&4));
    let mut ready = Cooldown::default();
    ready.tick(Duration::from_millis(2300));
    cds.0.insert(9, ready);
    assert_eq!(entity_hit_count(&mut cds, 9, Duration::from_secs(1)), 2);
    assert!(!cds.0[&9].is_ready(Duration::from_millis(301)));
    assert!(cds.0[&9].is_ready(Duration::from_millis(300)));
    assert_eq!(cds.0.len(), 2);
}

#[test]
fn shared_cooldown_strikes_first_living_touched_enemy() {
    let mut cd = Cooldown::default();
    cd.tick(Duration::from_secs(2));
    let touching = vec![false, true, true];
    let mut healths = vec![5, 0, 7];
    let mut tracker = DamageTracker::default();
    let struck = strike_first_enemy(
        &mut cd,
        Duration::from_secs(1),
        &touching,
        &mut healths,
        Damage(3),
        &mut tracker,
        Some(DamageTrackerKind::Lightning),
    );
    assert_eq!(struck, Some(2));
    assert_eq!(healths, vec![5, 0, 4]);
    assert_eq!(tracker.get_total_damage(), 3);
    assert!(!cd.is_ready(Duration::from_secs(1)));
    let again = strike_first_enemy(
        &mut cd,
        Duration::from_secs(1),
        &touching,
        &mut healths,
        Damage(3),
        &mut tracker,
        None,
    );
    assert_eq!(again, None);
    assert_eq!(healths, vec![5, 0, 4]);
}

#[test]
fn shared_cooldown_strike_does_not_go_below_zero() {
    let mut cd = Cooldown::default();
    cd.tick(Duration::from_secs(1));
    let mut healths = vec![2];
    let mut tracker = DamageTracker::default();
    let struck = strike_first_enemy(
        &mut cd,
        Duration::from_secs(1),
        &vec![true],
        &mut healths,
        Damage(5),
        &mut tracker,
        Some(DamageTrackerKind::PrimaryAttack),
    );
    assert_eq!(struck, Some(0));
    assert_eq!(healths, vec![0]);
    assert_eq!(tracker.get_total_damage(), 5);
}

#[test]
fn player_is_hit_only_when_vulnerable() {
    let mut health = Health(2);
    let mut vulnerability = Cooldown::default();
    assert_eq!(handle_damage_to_player(&mut health, &mut vulnerability, true), PlayerHit::Invulnerable);
    assert_eq!(health, Health(2));
    vulnerability.tick(Duration::from_secs(2));
    assert_eq!(handle_damage_to_player(&mut health, &mut vulnerability, false), PlayerHit::Vulnerable);
    assert_eq!(handle_damage_to_player(&mut health, &mut vulnerability, true), PlayerHit::Hit);
    assert_eq!(health, Health(1));
    assert_eq!(handle_damage_to_player(&mut health, &mut vulnerability, true), PlayerHit::Invulnerable);
    let mut dead = Health(0);
    let mut v = Cooldown::default();
    v.tick(Duration::from_secs(3));
    assert_eq!(handle_damage_to_player(&mut dead, &mut v, true), PlayerHit::Hit);
    assert_eq!(dead, Health(0));
}

#[test]
fn damage_text_is_decimal() {
    assert_eq!(damage_text(Damage(12)), "12");
    assert_eq!(damage_text(Damage(0)), "0");
    assert_eq!(damage_text(Damage(4_294_967_295)), "4294967295");
}
