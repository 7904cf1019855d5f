use incremental_rust_game::{
    farm_loss_event, res, BuildingType, Buildings, GameState, Tech, UpgradeType, CERTAIN, UNIT,
};
use rand::rngs::StdRng;
use rand::SeedableRng;

#[test]
fn cost_curve() {
    let c0 = Buildings::cost_for_level(BuildingType::Farm, 0).wood;
    let c1 = Buildings::cost_for_level(BuildingType::Farm, 1).wood;
    assert!(c1 > c0);
    let c0 = c0 as f64 / UNIT as f64;
    let c1 = c1 as f64 / UNIT as f64;
    assert!((c1 - c0 * 1.15).abs() < 1e-6);
}

#[test]
fn offline_progress() {
    let mut g = GameState::new();
    g.event_chance = 0;
    g.resources = res(20 * UNIT, 20 * UNIT, 0, 0, 0);
    assert!(g.build("farm".into()));
    let start = g.resources.food;
    let mut rng = StdRng::seed_from_u64(3);
    g.tick(10_000, &mut rng);
    g.tick(20_000, &mut rng);
    assert_eq!(g.resources.food, start + 10 * UNIT);
}

#[test]
fn bakery_food_depletion() {
    let mut g = GameState::new();
    g.event_chance = 0;
    g.resources = res(100 * UNIT, 100 * UNIT, 100 * UNIT + UNIT / 2, 100 * UNIT, 100 * UNIT);
    g.research.unlock(Tech::Baking);
    assert!(g.build("bakery".into()));
    g.resources.food = UNIT / 2;
    let mut rng = StdRng::seed_from_u64(4);
    g.tick(0, &mut rng);
    g.tick(1_000, &mut rng);
    assert_eq!(g.resources.food, 0);
    assert_eq!(g.resources.gold, 100 * UNIT + UNIT / 5);
}

#[test]
fn starting_resources_nonzero() {
    let g = GameState::new();
    // Player should start with enough wood and stone for a first farm
    assert!(g.resources.wood >= 10 * UNIT);
    assert!(g.resources.stone >= 10 * UNIT);
}

#[test]
fn farm_loss_triggers() {
    let mut b = Buildings::default();
    for _ in 0..10 {
        b.increment(BuildingType::Farm);
    }
    let mut rng = StdRng::seed_from_u64(1);
    let msg = farm_loss_event(&mut b, &mut rng, CERTAIN).expect("should trigger");
    assert!(msg.contains("storm"));
    assert_eq!(b.level(BuildingType::Farm), 9); // ceil(10% of 10) = 1
}

#[test]
fn ten_minutes_growth() {
    let mut g = GameState::new();
    g.event_chance = 0;
    g.resources = res(20 * UNIT, 20 * UNIT, 0, 0, 0);
    assert!(g.build("farm".into()));
    let start = g.resources.food;
    let mut rng = StdRng::seed_from_u64(5);
    g.tick(0, &mut rng); // initialize timestamp
    g.tick(600_000, &mut rng);
    assert_eq!(g.resources.food, start + 600 * UNIT);
}

#[test]
fn event_triggers() {
    let mut g = GameState::new();
    g.resources = res(0, 0, 0, 0, 0);
    for _ in 0..10 {
        g.buildings.increment(BuildingType::Farm);
    }
    let mut rng = StdRng::seed_from_u64(0);
    let msg = farm_loss_event(&mut g.buildings, &mut rng, CERTAIN).unwrap();
    assert!(msg.contains("storm"));
    assert_eq!(g.buildings.level(BuildingType::Farm), 9);
}

#[test]
fn save_load_integrity() {
    let mut g = GameState::new();
    g.event_chance = 0;
    g.resources.gold = 42 * UNIT;
    let data = g.save_string();
    let loaded = GameState::load_string(&data).unwrap();
    assert_eq!(loaded.resources.gold, 42 * UNIT);
}

#[test]
fn prestige_resets() {
    let mut g = GameState::new();
    g.resources.gold = 1_000_000 * UNIT;
    g.buildings.increment(BuildingType::Farm);
    g.prestige();
    assert!(g.prestige.points > 0);
    assert_eq!(g.buildings.level(BuildingType::Farm), 0);
}

#[test]
fn anchored_progress_counts_every_tick() {
    let mut g = GameState::new();
    g.event_chance = 0;
    assert!(g.build("farm".into()));
    let mut rng = StdRng::seed_from_u64(6);
    g.tick(0, &mut rng);
    g.tick(10_000, &mut rng);
    g.tick(20_000, &mut rng);
    assert_eq!(g.resources.food, 20 * UNIT);
    assert_eq!(g.last_update, Some(20_000));
}

#[test]
fn first_advance_only_anchors() {
    let mut g = GameState::new();
    g.event_chance = 0;
    assert!(g.build("farm".into()));
    let before = g.resources;
    let mut rng = StdRng::seed_from_u64(8);
    g.tick(50_000, &mut rng);
    assert_eq!(g.resources, before);
    assert_eq!(g.last_update, Some(50_000));
}

#[test]
fn catch_up_is_capped_at_eight_hours() {
    let mut g = GameState::new();
    g.event_chance = 0;
    assert!(g.build("farm".into()));
    let mut rng = StdRng::seed_from_u64(9);
    g.tick(0, &mut rng);
    g.tick(10 * 3600 * 1000, &mut rng);
    assert_eq!(g.resources.food, 8 * 3600 * UNIT);
    assert_eq!(g.last_update, Some(10 * 3600 * 1000));
}

#[test]
fn fractional_remainder_is_kept() {
    let mut g = GameState::new();
    g.event_chance = 0;
    assert!(g.build("farm".into()));
    let mut rng = StdRng::seed_from_u64(10);
    g.tick(0, &mut rng);
    g.tick(500, &mut rng);
    assert_eq!(g.resources.food, 0);
    assert_eq!(g.last_update, Some(0));
    g.tick(1_000, &mut rng);
    assert_eq!(g.resources.food, UNIT);
    assert_eq!(g.last_update, Some(1_000));
    g.tick(2_700, &mut rng);
    assert_eq!(g.resources.food, 2 * UNIT);
    assert_eq!(g.last_update, Some(2_000));
    g.tick(3_000, &mut rng);
    assert_eq!(g.resources.food, 3 * UNIT);
}

#[test]
fn frequent_polling_still_progresses() {
    let mut g = GameState::new();
    g.event_chance = 0;
    assert!(g.build("farm".into()));
    let mut rng = StdRng::seed_from_u64(18);
    for t in 0..=100u64 {
        g.tick(t * 300, &mut rng);
    }
    assert_eq!(g.resources.food, 30 * UNIT);
}

#[test]
fn clock_going_backwards_does_nothing() {
    let mut g = GameState::new();
    g.event_chance = 0;
    assert!(g.build("farm".into()));
    let mut rng = StdRng::seed_from_u64(11);
    g.tick(5_000, &mut rng);
    g.tick(1_000, &mut rng);
    assert_eq!(g.resources.food, 0);
    assert_eq!(g.last_update, Some(5_000));
}

#[test]
fn split_advance_matches_single_advance() {
    // Same seed and same tick count: both games draw the same rolls, and
    // the steps need not meet on tick boundaries.
    let mut a = GameState::new();
    let mut b = GameState::new();
    for g in [&mut a, &mut b] {
        g.event_chance = CERTAIN;
        g.resources = res(200 * UNIT, 200 * UNIT, 0, 0, 0);
        for _ in 0..4 {
            assert!(g.build("farm".into()));
        }
        assert!(g.build("lumber_mill".into()));
    }
    let mut rng_a = StdRng::seed_from_u64(12);
    let mut rng_b = StdRng::seed_from_u64(12);
    a.tick(1_000, &mut rng_a);
    a.tick(6_400, &mut rng_a);
    a.tick(9_000, &mut rng_a);
    a.tick(9_999, &mut rng_a);
    a.tick(31_000, &mut rng_a);
    b.tick(1_000, &mut rng_b);
    b.tick(31_000, &mut rng_b);
    assert_eq!(a.resources, b.resources);
    assert_eq!(a.buildings, b.buildings);
    assert_eq!(a.achievements, b.achievements);
    assert_eq!(a.event_log, b.event_log);
    assert_eq!(a.last_update, b.last_update);
}

#[test]
fn no_events_without_chance() {
    let mut g = GameState::new();
    g.event_chance = 0;
    g.resources = res(200 * UNIT, 200 * UNIT, 0, 0, 0);
    for _ in 0..5 {
        assert!(g.build("farm".into()));
    }
    let gold = g.resources.gold;
    let mut rng = StdRng::seed_from_u64(13);
    g.tick(0, &mut rng);
    g.tick(1_000_000, &mut rng);
    assert_eq!(g.buildings.level(BuildingType::Farm), 5);
    assert_eq!(g.resources.gold, gold);
    assert_eq!(g.pop_log(), Some("Achievement unlocked: First Farm".to_string()));
    assert_eq!(g.pop_log(), None);
}

#[test]
fn certain_events_fire_every_tick() {
    let mut g = GameState::new();
    g.event_chance = CERTAIN;
    g.resources = res(200 * UNIT, 200 * UNIT, 0, 0, 0);
    for _ in 0..5 {
        assert!(g.build("farm".into()));
    }
    let mut rng = StdRng::seed_from_u64(14);
    g.tick(0, &mut rng);
    g.tick(200_000, &mut rng);
    let mut storms = 0;
    let mut treasures = 0;
    while let Some(msg) = g.pop_log() {
        if msg.starts_with("A storm destroyed ") {
            storms += 1;
        } else if msg.starts_with("Found a hidden treasure worth ") {
            treasures += 1;
        }
    }
    assert!(storms >= 5);
    assert!(treasures > 0);
    assert_eq!(g.buildings.level(BuildingType::Farm), 0);
    assert!(g.resources.gold >= 5 * UNIT * treasures);
    assert!(g.resources.gold < 20 * UNIT * treasures);
}

#[test]
fn build_rejects_unknown_and_gated_buildings() {
    let mut g = GameState::new();
    g.resources = res(1_000 * UNIT, 1_000 * UNIT, 1_000 * UNIT, 1_000 * UNIT, 1_000 * UNIT);
    let before = g.resources;
    assert!(!g.build("castle".into()));
    assert!(!g.build("mine".into()));
    assert!(!g.build("bakery".into()));
    assert!(!g.build("generator".into()));
    assert!(!g.build("lab".into()));
    assert!(!g.build("shrine".into()));
    assert_eq!(g.resources, before);
    g.research.unlock(Tech::Mining);
    assert!(g.build("mine".into()));
    assert_eq!(g.building_count("mine".into()), 1);
    assert_eq!(g.resources.wood, before.wood - 20 * UNIT);
}

#[test]
fn build_fails_when_unaffordable() {
    let mut g = GameState::new();
    g.resources = res(9 * UNIT, 100 * UNIT, 0, 0, 0);
    let before = g.resources;
    assert!(!g.build("farm".into()));
    assert_eq!(g.resources, before);
    assert_eq!(g.building_count("farm".into()), 0);
}

#[test]
fn build_cost_by_name() {
    let mut g = GameState::new();
    assert_eq!(g.build_cost("farm".into()), res(10 * UNIT, 10 * UNIT, 0, 0, 0));
    assert!(g.build("farm".into()));
    assert_eq!(g.build_cost("farm".into()), res(11_500_000, 11_500_000, 0, 0, 0));
    assert_eq!(g.build_cost("castle".into()), res(0, 0, 0, 0, 0));
    assert_eq!(g.building_count("castle".into()), 0);
}

#[test]
fn resources_by_name() {
    let mut g = GameState::new();
    g.resources.mana = 3 * UNIT;
    assert_eq!(g.get_resource("wood".into()), 20 * UNIT);
    assert_eq!(g.get_resource("mana".into()), 3 * UNIT);
    assert_eq!(g.get_resource("gems".into()), 0);
}

#[test]
fn resource_rate_follows_tick_rate() {
    let mut g = GameState::new();
    assert!(g.build("farm".into()));
    assert_eq!(g.get_resource_rate("food".into()), UNIT);
    g.set_tick_rate(500);
    assert_eq!(g.get_resource_rate("food".into()), 2 * UNIT);
    assert_eq!(g.get_resource_rate("wood".into()), 0);
    assert_eq!(g.get_resource_rate("gems".into()), 0);
}

#[test]
fn tick_rate_is_clamped() {
    let mut g = GameState::new();
    g.set_tick_rate(10);
    assert_eq!(g.tick_rate, 200);
    g.set_tick_rate(60_000);
    assert_eq!(g.tick_rate, 10_000);
    g.set_tick_rate(2_500);
    assert_eq!(g.tick_rate, 2_500);
}

#[test]
fn research_by_name() {
    let mut g = GameState::new();
    assert!(!g.research("mining".into()));
    g.resources.science = 150 * UNIT;
    assert!(!g.research("sorcery".into()));
    assert!(g.research("mining".into()));
    assert_eq!(g.resources.science, 50 * UNIT);
    assert!(g.research("mining".into()));
    assert_eq!(g.resources.science, 50 * UNIT);
    assert!(!g.research("baking".into()));
    assert!(g.research.is_unlocked(Tech::Mining));
    assert!(!g.research.is_unlocked(Tech::Baking));
}

#[test]
fn prestige_grants_one_point_for_a_million_gold() {
    let mut g = GameState::new();
    g.resources.gold = 1_000_000 * UNIT;
    g.buildings.increment(BuildingType::Farm);
    g.upgrades.purchase(UpgradeType::Efficiency, &mut res(100 * UNIT, 100 * UNIT, 0, 0, 0));
    g.prestige();
    assert_eq!(g.prestige_points(), 1);
    assert_eq!(g.buildings.level(BuildingType::Farm), 0);
    assert_eq!(g.upgrades.level(UpgradeType::Efficiency), 0);
    assert_eq!(g.resources, res(20 * UNIT, 20 * UNIT, 0, 0, 0));
    g.prestige();
    assert_eq!(g.prestige_points(), 1);
}

#[test]
fn prestige_points_follow_square_root() {
    let mut g = GameState::new();
    g.resources.gold = 999_999 * UNIT;
    g.prestige();
    assert_eq!(g.prestige_points(), 0);
    g.resources.gold = 9_000_000 * UNIT;
    g.prestige();
    assert_eq!(g.prestige_points(), 3);
    g.resources.gold = 8_999_999 * UNIT;
    g.prestige();
    assert_eq!(g.prestige_points(), 5);
}

#[test]
fn prestige_keeps_clock_and_tick_rate() {
    let mut g = GameState::new();
    let mut rng = StdRng::seed_from_u64(15);
    g.set_tick_rate(2_000);
    g.tick(7_000, &mut rng);
    g.research.unlock(Tech::Alchemy);
    g.prestige();
    assert_eq!(g.last_update, Some(7_000));
    assert_eq!(g.tick_rate, 2_000);
    assert!(!g.research.is_unlocked(Tech::Alchemy));
}

#[test]
fn prestige_bonus_raises_yield() {
    let mut g = GameState::new();
    g.prestige.points = 4;
    assert_eq!(g.prestige.bonus_multiplier(), 1_200_000);
    assert!(g.build("farm".into()));
    assert_eq!(g.get_resource_rate("food".into()), 1_200_000);
}

#[test]
fn efficiency_upgrade_raises_yield() {
    let mut g = GameState::new();
    g.resources = res(200 * UNIT, 200 * UNIT, 0, 0, 0);
    assert!(g.build("farm".into()));
    assert!(g.upgrades.purchase(UpgradeType::Efficiency, &mut g.resources));
    assert_eq!(g.upgrades.multiplier(UpgradeType::Efficiency), 1_100_000);
    assert_eq!(g.get_resource_rate("food".into()), 1_100_000);
}

#[test]
fn alchemy_boost_raises_mana_only() {
    let mut g = GameState::new();
    g.resources = res(500 * UNIT, 500 * UNIT, 0, 500 * UNIT, 500 * UNIT);
    g.research.unlock(Tech::Alchemy);
    assert!(g.build("shrine".into()));
    assert!(g.build("farm".into()));
    assert!(g.upgrades.purchase(UpgradeType::AlchemyBoost, &mut g.resources));
    assert_eq!(g.get_resource_rate("mana".into()), 300_000);
    assert_eq!(g.get_resource_rate("food".into()), UNIT);
}

#[test]
fn achievements_listed_in_sorted_order() {
    let mut g = GameState::new();
    g.event_chance = 0;
    assert!(g.build("farm".into()));
    g.research.unlock(Tech::Mining);
    let mut rng = StdRng::seed_from_u64(16);
    g.tick(0, &mut rng);
    g.tick(1_000, &mut rng);
    assert_eq!(
        g.achievements_list(),
        vec!["Discovered Mining".to_string(), "First Farm".to_string()]
    );
    assert_eq!(g.pop_log(), Some("Achievement unlocked: First Farm".to_string()));
    assert_eq!(g.pop_log(), Some("Achievement unlocked: Discovered Mining".to_string()));
    assert_eq!(g.pop_log(), None);
    g.tick(5_000, &mut rng);
    assert_eq!(g.pop_log(), None);
}
