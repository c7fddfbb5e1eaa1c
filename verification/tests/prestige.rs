use test_game::prestige::stats::{
    DamageMultiplierTier, HealthRegenTier, MaximumHealthTier, PrestigeTier, Stats, UpgradeOptions,
};

fn stats(coins: u32, damage: u32, health: u32, regen: u32) -> Stats {
    Stats {
        coins,
        damage_multiplier: DamageMultiplierTier::new(damage),
        maximum_health: MaximumHealthTier::new(health),
        health_regen: HealthRegenTier::new(regen),
    }
}

fn spent(tier: u32) -> u32 {
    (1..=tier).map(|t| 10 * t).sum()
}

fn wealth(s: &Stats) -> u32 {
    s.coins
        + spent(s.damage_multiplier.tier())
        + spent(s.maximum_health.tier())
        + spent(s.health_regen.tier())
}

#[test]
fn default_stats_have_a_thousand_coins() {
    let s = Stats::default();
    assert_eq!(s.coins, 1000);
    assert_eq!(s.maximum_health.tier(), 0);
    assert_eq!(s.health_regen.tier(), 0);
    assert_eq!(s.damage_multiplier.tier(), 0);
}

#[test]
fn next_price_is_ten_per_tier() {
    let s = stats(1000, 0, 2, 4);
    assert_eq!(s.get_next_price(UpgradeOptions::DamageMultiplier), Some(10));
    assert_eq!(s.get_next_price(UpgradeOptions::MaximumHealth), Some(30));
    assert_eq!(s.get_next_price(UpgradeOptions::HealthRegen), Some(50));
    let top = stats(1000, 5, 5, 5);
    assert_eq!(top.get_next_price(UpgradeOptions::MaximumHealth), None);
    assert_eq!(top.is_upgradeable(UpgradeOptions::HealthRegen), None);
}

#[test]
fn tier_prices_and_next() {
    assert_eq!(MaximumHealthTier::new(3).price(), 30);
    assert_eq!(MaximumHealthTier::new(3).next().map(|t| t.tier()), Some(4));
    assert!(MaximumHealthTier::new(5).next().is_none());
    assert!(HealthRegenTier::new(5).next().is_none());
    assert!(DamageMultiplierTier::new(5).next().is_none());
    assert_eq!(DamageMultiplierTier::new(7).next().map(|t| t.tier()), Some(8));
}

#[test]
fn upgrade_buys_the_next_tier() {
    let mut s = Stats::default();
    s.upgrade(UpgradeOptions::MaximumHealth);
    assert_eq!(s.coins, 990);
    assert_eq!(s.maximum_health.tier(), 1);
    s.upgrade(UpgradeOptions::MaximumHealth);
    assert_eq!(s.coins, 970);
    assert_eq!(s.maximum_health.tier(), 2);
    assert_eq!(s.health_regen.tier(), 0);
    assert_eq!(s.damage_multiplier.tier(), 0);
}

#[test]
fn upgrade_stops_at_the_highest_tier() {
    let mut s = Stats::default();
    for _ in 0..8 {
        s.upgrade(UpgradeOptions::HealthRegen);
    }
    assert_eq!(s.health_regen.tier(), 5);
    assert_eq!(s.coins, 1000 - 150);
}

#[test]
fn upgrade_without_enough_coins_changes_nothing() {
    let mut s = stats(19, 1, 0, 0);
    assert_eq!(s.is_upgradeable(UpgradeOptions::DamageMultiplier), Some(false));
    s.upgrade(UpgradeOptions::DamageMultiplier);
    assert_eq!(s.coins, 19);
    assert_eq!(s.damage_multiplier.tier(), 1);
    let mut exact = stats(20, 1, 0, 0);
    assert_eq!(exact.is_upgradeable(UpgradeOptions::DamageMultiplier), Some(true));
    exact.upgrade(UpgradeOptions::DamageMultiplier);
    assert_eq!(exact.coins, 0);
    assert_eq!(exact.damage_multiplier.tier(), 2);
}

#[test]
fn upgrades_keep_coins_plus_spent() {
    let mut s = stats(200, 1, 2, 0);
    let w = wealth(&s);
    let options = [
        UpgradeOptions::MaximumHealth,
        UpgradeOptions::DamageMultiplier,
        UpgradeOptions::HealthRegen,
        UpgradeOptions::MaximumHealth,
        UpgradeOptions::MaximumHealth,
        UpgradeOptions::MaximumHealth,
        UpgradeOptions::HealthRegen,
    ];
    for o in options {
        s.upgrade(o);
        assert_eq!(wealth(&s), w);
        assert!(s.maximum_health.tier() <= 5);
    }
}

#[test]
fn update_coins_amount_adds() {
    let mut s = Stats::default();
    s.update_coins_amount(25);
    assert_eq!(s.coins, 1025);
}

#[test]
fn maximum_health_descriptions() {
    assert_eq!(
        MaximumHealthTier::new(0).description(),
        "Increase maximum health by: 0 (+1),  Tier 0/5"
    );
    assert_eq!(
        MaximumHealthTier::new(5).description(),
        "Increase maximum health by: 5,  Tier 5/5"
    );
    assert_eq!(MaximumHealthTier::new(4).get_increase(), 4);
}

#[test]
fn health_regen_descriptions() {
    assert_eq!(
        HealthRegenTier::new(0).description(),
        "Regenerate health every: Infinity seconds (55 seconds),  Tier 0/5"
    );
    assert_eq!(
        HealthRegenTier::new(2).description(),
        "Regenerate health every: 50 seconds (45 seconds),  Tier 2/5"
    );
    assert_eq!(
        HealthRegenTier::new(5).description(),
        "Regenerate health every: 35 seconds,  Tier 5/5"
    );
    assert!(HealthRegenTier::new(0).get_increase().is_none());
    assert_eq!(HealthRegenTier::new(3).get_increase().map(|d| d.as_secs()), Some(45));
}

#[test]
fn damage_multiplier_descriptions() {
    assert_eq!(
        DamageMultiplierTier::new(0).description(),
        "Increase all damage by: 0.0% (+10.0%),  Tier 0/5"
    );
    assert_eq!(
        DamageMultiplierTier::new(3).description(),
        "Increase all damage by: 30.0% (+10.0%),  Tier 3/5"
    );
    assert_eq!(
        DamageMultiplierTier::new(5).description(),
        "Increase all damage by: 50.0%,  Tier 5/5"
    );
}

#[test]
fn upgrade_info_follows_the_option() {
    let s = stats(0, 1, 2, 3);
    assert_eq!(
        s.get_upgrade_info(UpgradeOptions::MaximumHealth),
        "Increase maximum health by: 2 (+1),  Tier 2/5"
    );
    assert_eq!(
        s.get_upgrade_info(UpgradeOptions::HealthRegen),
        "Regenerate health every: 45 seconds (40 seconds),  Tier 3/5"
    );
    assert_eq!(
        s.get_upgrade_info(UpgradeOptions::DamageMultiplier),
        "Increase all damage by: 10.0% (+10.0%),  Tier 1/5"
    );
}

#[test]
fn damage_description_at_the_highest_written_tier() {
    use_tier_text(40952, "Increase all damage by: 409520.0% (+10.0%),  Tier 40952/5");
}

fn use_tier_text(tier: u32, expected: &str) {
    assert_eq!(DamageMultiplierTier::new(tier).description(), expected);
}
