use test_game::loot::coin::handle_coin_pickup;
use test_game::loot::loot::{loot_for_roll, pickup_loot, try_spawn_loot, AnimationIndices, LootId, PickupAction};
use test_game::loot::xp::{activate_all_xp_orbs, MagnetActive};
use test_game::mechanics::damage::Health;
use test_game::prestige::stats::Stats;
use test_game::rng::GameRng;
use test_game::sprites::{Item, SpriteKind};

#[test]
fn loot_rolls_map_to_items() {
    assert_eq!(loot_for_roll(0), Some((LootId(0), SpriteKind::Item(Item::Potion))));
    assert_eq!(loot_for_roll(1), Some((LootId(1), SpriteKind::Item(Item::ThorsHammer))));
    assert_eq!(loot_for_roll(2), Some((LootId(2), SpriteKind::Item(Item::Magnet))));
    assert_eq!(loot_for_roll(3), Some((LootId(3), SpriteKind::Item(Item::Coin))));
    for roll in 4..10 {
        assert_eq!(loot_for_roll(roll), None);
    }
}

#[test]
fn random_loot_is_a_known_item() {
    let mut rng = GameRng::from_entropy();
    for _ in 0..200 {
        if let Some((id, kind)) = try_spawn_loot(&mut rng) {
            assert!(id.0 < 4);
            assert_eq!(loot_for_roll(id.0), Some((id, kind)));
        }
    }
}

#[test]
fn gen_range_stays_in_range() {
    let mut rng = GameRng::from_entropy();
    assert_eq!(rng.gen_range_u32(10, 11), 10);
    let draws: Vec<u32> = (0..200).map(|_| rng.gen_range_u32(0, 10)).collect();
    assert!(draws.iter().all(|&d| d < 10));
    assert!(draws.iter().any(|&d| d != draws[0]));
}

#[test]
fn potion_heals_only_below_max() {
    let mut stats = Stats::default();
    let mut health = Health(1);
    assert_eq!(pickup_loot(LootId(0), &mut health, 2, &mut stats), PickupAction::Healed);
    assert_eq!(health, Health(2));
    assert_eq!(pickup_loot(LootId(0), &mut health, 2, &mut stats), PickupAction::Keep);
    assert_eq!(health, Health(2));
}

#[test]
fn other_loot_actions() {
    let mut stats = Stats::default();
    let mut health = Health(1);
    assert_eq!(pickup_loot(LootId(1), &mut health, 2, &mut stats), PickupAction::SpawnBomb);
    assert_eq!(pickup_loot(LootId(2), &mut health, 2, &mut stats), PickupAction::ActivateXpOrbs);
    assert_eq!(stats.coins, 1000);
    assert_eq!(pickup_loot(LootId(3), &mut health, 2, &mut stats), PickupAction::CoinCollected);
    assert_eq!(stats.coins, 1001);
    assert_eq!(health, Health(1));
}

#[test]
fn coin_pickup_adds_one_coin() {
    let mut stats = Stats::default();
    handle_coin_pickup(&mut stats);
    handle_coin_pickup(&mut stats);
    assert_eq!(stats.coins, 1002);
}

#[test]
fn magnet_activates_every_orb() {
    let mut orbs = vec![MagnetActive(false), MagnetActive(true), MagnetActive(false)];
    activate_all_xp_orbs(&mut orbs);
    assert_eq!(orbs, vec![MagnetActive(true); 3]);
}

#[test]
fn animation_cycles_through_four_frames() {
    let idx = AnimationIndices { first: 0, second: 1, third: 2, fourth: 3 };
    assert_eq!(idx.next_index(0), 1);
    assert_eq!(idx.next_index(1), 2);
    assert_eq!(idx.next_index(2), 3);
    assert_eq!(idx.next_index(3), 0);
    let custom = AnimationIndices { first: 10, second: 11, third: 12, fourth: 13 };
    assert_eq!(custom.next_index(3), 10);
}
