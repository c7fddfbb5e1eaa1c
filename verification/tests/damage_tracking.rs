use test_game::tools::damage_tracking::{DamageTracker, DamageTrackerKind};

#[test]
fn new_tracker_is_empty() {
    let t = DamageTracker::default();
    assert_eq!(t.get_total_damage(), 0);
    assert!(t.get_sorted_by_damage().is_empty());
}

#[test]
fn sorted_report_is_descending_and_stable() {
    let mut t = DamageTracker::default();
    t.update(DamageTrackerKind::PrimaryAttack, 5);
    t.update(DamageTrackerKind::Lightning, 12);
    t.update(DamageTrackerKind::OrbJutsu, 5);
    let sorted = t.get_sorted_by_damage();
    let names: Vec<&str> = sorted.iter().map(|d| d.spell).collect();
    let amounts: Vec<u32> = sorted.iter().map(|d| d.amount).collect();
    assert_eq!(names, vec!["Lightning", "Primary Attack", "Orb Jutsu"]);
    assert_eq!(amounts, vec![12, 5, 5]);
    assert_eq!(t.get_total_damage(), 22);
    assert_eq!(amounts.iter().sum::<u32>(), t.get_total_damage());
}

#[test]
fn sorted_report_leaves_out_spells_without_damage() {
    let mut t = DamageTracker::default();
    t.update(DamageTrackerKind::OrbJutsu, 3);
    t.update(DamageTrackerKind::OrbJutsu, 4);
    let sorted = t.get_sorted_by_damage();
    assert_eq!(sorted.len(), 1);
    assert_eq!(sorted[0].spell, "Orb Jutsu");
    assert_eq!(sorted[0].amount, 7);
}

#[test]
fn reset_clears_every_spell() {
    let mut t = DamageTracker::default();
    t.update(DamageTrackerKind::PrimaryAttack, 9);
    t.update(DamageTrackerKind::Lightning, 1);
    t.reset();
    assert_eq!(t.get_total_damage(), 0);
    assert!(t.get_sorted_by_damage().is_empty());
}

#[test]
fn update_adds_to_the_total() {
    let mut t = DamageTracker::default();
    t.update(DamageTrackerKind::Lightning, 10);
    let before = t.get_total_damage();
    t.update(DamageTrackerKind::PrimaryAttack, 7);
    assert_eq!(t.get_total_damage(), before + 7);
}
