use incremental_rust_game::achievements::Achievements;
use incremental_rust_game::events::{
    apply_roll, event_odds, roll_event, roll_of, treasure_event, EventRoll,
};
use incremental_rust_game::{
    res, res_ext, BuildingType, Buildings, GameState, Research, Tech, UpgradeType, Upgrades,
    CERTAIN, UNIT,
};
use rand::rngs::StdRng;
use rand::SeedableRng;

const ALL_BUILDINGS: [BuildingType; 8] = [
    BuildingType::Farm,
    BuildingType::LumberMill,
    BuildingType::Quarry,
    BuildingType::Mine,
    BuildingType::Bakery,
    BuildingType::Generator,
    BuildingType::Lab,
    BuildingType::Shrine,
];

fn stocks(r: &incremental_rust_game::Resources) -> [i64; 8] {
    [r.wood, r.stone, r.food, r.iron, r.gold, r.energy, r.science, r.mana]
}

#[test]
fn building_costs_grow_by_their_factor() {
    let growth = [1.15, 1.15, 1.15, 1.2, 1.2, 1.25, 1.25, 1.3];
    for (ty, g) in ALL_BUILDINGS.iter().zip(growth) {
        for n in 0..60 {
            let before = stocks(&Buildings::cost_for_level(*ty, n));
            let after = stocks(&Buildings::cost_for_level(*ty, n + 1));
            assert!(after.iter().sum::<i64>() > before.iter().sum::<i64>());
            for i in 0..8 {
                let expected = before[i] as f64 / UNIT as f64 * g;
                let got = after[i] as f64 / UNIT as f64;
                assert!((got - expected).abs() < 1e-6 + expected * 1e-12);
                if before[i] > 0 {
                    assert!(after[i] > before[i]);
                } else {
                    assert_eq!(after[i], 0);
                }
            }
        }
    }
}

#[test]
fn upgrade_costs_grow_by_their_factor() {
    let mut u = Upgrades::default();
    let mut wallet = res(i64::MAX / 4, i64::MAX / 4, 0, 0, i64::MAX / 4);
    for _ in 0..20 {
        let before = u.cost(UpgradeType::Storage);
        assert!(u.purchase(UpgradeType::Storage, &mut wallet));
        let after = u.cost(UpgradeType::Storage);
        assert!(after.wood > before.wood);
        let expected = before.wood as f64 * 1.7;
        assert!((after.wood as f64 - expected).abs() < 1.0 + expected * 1e-12);
    }
    assert_eq!(u.level(UpgradeType::Storage), 20);
    assert_eq!(u.cost(UpgradeType::AlchemyBoost), res(0, 0, 0, 0, 200 * UNIT));
}

#[test]
fn saturated_cost_is_unaffordable_for_a_small_ledger() {
    let cost = Buildings::cost_for_level(BuildingType::Shrine, 4_000_000_000);
    assert_eq!(cost.wood, i64::MAX);
    assert_eq!(cost.food, 0);
    let mut wallet = res(1_000 * UNIT, 1_000 * UNIT, 0, 1_000 * UNIT, 0);
    assert!(!wallet.subtract(&cost));
}

#[test]
fn unaffordable_subtract_changes_nothing() {
    let mut ledger = res_ext(5, 5, 5, 5, 5, 5, 5, 4);
    let cost = res_ext(1, 1, 1, 1, 1, 1, 1, 5);
    let before = ledger;
    assert!(!ledger.can_afford(&cost));
    assert!(!ledger.subtract(&cost));
    assert_eq!(ledger, before);
}

#[test]
fn affordable_subtract_charges_every_stock() {
    let mut ledger = res_ext(5, 6, 7, 8, 9, 10, 11, 12);
    let cost = res_ext(1, 2, 3, 4, 5, 6, 7, 8);
    assert!(ledger.can_afford(&cost));
    assert!(ledger.subtract(&cost));
    assert_eq!(ledger, res_ext(4, 4, 4, 4, 4, 4, 4, 4));
}

#[test]
fn ledger_arithmetic() {
    let mut a = res_ext(1, -2, 3, -4, 5, -6, 7, -8);
    a.add(&res_ext(1, 1, 1, 1, 1, 1, 1, 1));
    assert_eq!(a, res_ext(2, -1, 4, -3, 6, -5, 8, -7));
    a.clamp_non_negative();
    assert_eq!(a, res_ext(2, 0, 4, 0, 6, 0, 8, 0));
    assert_eq!(a.scale(1_500_000), res_ext(3, 0, 6, 0, 9, 0, 12, 0));
    assert_eq!(res(-3, 0, 0, 0, 0).scale(UNIT / 2), res(-1, 0, 0, 0, 0));
    let mut big = res(i64::MAX, 0, 0, 0, 0);
    big.add(&res(1, 0, 0, 0, 0));
    assert_eq!(big.wood, i64::MAX);
}

#[test]
fn achievement_check_is_idempotent() {
    let mut a = Achievements::default();
    let mut b = Buildings::default();
    let mut r = Research::default();
    assert!(a.check(&b, &r).is_empty());
    b.increment(BuildingType::Farm);
    r.unlock(Tech::Mining);
    assert_eq!(
        a.check(&b, &r),
        vec![
            "Achievement unlocked: First Farm".to_string(),
            "Achievement unlocked: Discovered Mining".to_string(),
        ]
    );
    assert!(a.check(&b, &r).is_empty());
    assert_eq!(a.list(), vec!["Discovered Mining".to_string(), "First Farm".to_string()]);
}

#[test]
fn achievement_stays_after_its_reason_is_gone() {
    let mut a = Achievements::default();
    let mut b = Buildings::default();
    let r = Research::default();
    b.increment(BuildingType::Farm);
    assert_eq!(a.check(&b, &r).len(), 1);
    b.decrement(BuildingType::Farm, 5);
    assert_eq!(b.level(BuildingType::Farm), 0);
    assert!(a.check(&b, &r).is_empty());
    b.increment(BuildingType::Farm);
    assert!(a.check(&b, &r).is_empty());
    assert_eq!(a.list(), vec!["First Farm".to_string()]);
}

#[test]
fn save_load_round_trip_keeps_every_field() {
    let mut g = GameState::new();
    g.resources = res_ext(1, -2, 3 * UNIT, i64::MAX, i64::MIN, 6, 7, 8);
    g.buildings.increment(BuildingType::Shrine);
    g.buildings.increment(BuildingType::Farm);
    g.buildings.increment(BuildingType::Farm);
    g.upgrades.purchase(UpgradeType::Efficiency, &mut res(50 * UNIT, 50 * UNIT, 0, 0, 0));
    g.research.unlock(Tech::Electricity);
    g.research.unlock(Tech::Alchemy);
    g.prestige.points = 77;
    g.set_tick_rate(3_300);
    g.last_update = Some(123_456_789);
    g.event_log.push("pending".to_string());
    g.event_chance = 7;
    let mut rng = StdRng::seed_from_u64(17);
    g.event_chance = 0;
    g.tick(123_456_789, &mut rng);
    let data = g.save_string();
    let loaded = GameState::load_string(&data).unwrap();
    assert_eq!(loaded.version, g.version);
    assert_eq!(loaded.resources, g.resources);
    assert_eq!(loaded.buildings, g.buildings);
    assert_eq!(loaded.upgrades, g.upgrades);
    assert_eq!(loaded.research, g.research);
    assert_eq!(loaded.achievements, g.achievements);
    assert_eq!(loaded.prestige, g.prestige);
    assert_eq!(loaded.tick_rate, 3_300);
    assert_eq!(loaded.last_update, Some(123_456_789));
    assert!(loaded.event_log.is_empty());
    assert_eq!(loaded.event_chance, incremental_rust_game::FARM_LOSS_CHANCE);
}

#[test]
fn save_of_a_fresh_game_round_trips() {
    let g = GameState::new();
    let loaded = GameState::load_string(&g.save_string()).unwrap();
    assert_eq!(loaded.resources, g.resources);
    assert_eq!(loaded.last_update, None);
    assert_eq!(loaded.tick_rate, 1_000);
}

#[test]
fn save_is_base64_text() {
    let g = GameState::new();
    let data = g.save_string();
    assert_eq!(data.len(), 188);
    assert!(data
        .chars()
        .all(|c| c.is_ascii_alphanumeric() || c == '+' || c == '/' || c == '='));
    assert!(data.starts_with("AgAAAA"));
}

#[test]
fn load_refuses_bad_saves() {
    let g = GameState::new();
    let data = g.save_string();
    assert!(GameState::load_string("not a save").is_none());
    assert!(GameState::load_string("").is_none());
    assert!(GameState::load_string(&data[..100]).is_none());
    // versions 1 and 3 in the first byte
    let older = format!("AQAAAA{}", &data[6..]);
    assert!(GameState::load_string(&older).is_none());
    let newer = format!("AwAAAA{}", &data[6..]);
    assert!(GameState::load_string(&newer).is_none());
}

#[test]
fn failed_load_keeps_the_state() {
    let mut g = GameState::new();
    g.resources.gold = 5 * UNIT;
    g.event_log.push("kept".to_string());
    assert!(!g.load("garbage!"));
    assert_eq!(g.resources.gold, 5 * UNIT);
    assert_eq!(g.event_log, vec!["kept".to_string()]);
    let mut other = GameState::new();
    other.resources.gold = 9 * UNIT;
    assert!(g.load(&other.save_string()));
    assert_eq!(g.resources.gold, 9 * UNIT);
    assert!(g.event_log.is_empty());
}

#[test]
fn certain_storm_on_ten_farms_destroys_one() {
    let mut b = Buildings::default();
    for _ in 0..10 {
        b.increment(BuildingType::Farm);
    }
    let mut rng = StdRng::seed_from_u64(21);
    let msg = incremental_rust_game::farm_loss_event(&mut b, &mut rng, CERTAIN).unwrap();
    assert_eq!(msg, "A storm destroyed 1 farms!");
    assert_eq!(b.level(BuildingType::Farm), 9);
}

#[test]
fn storm_destroys_a_tenth_rounded_up() {
    let mut b = Buildings::default();
    for _ in 0..23 {
        b.increment(BuildingType::Farm);
    }
    let mut r = res(0, 0, 0, 0, 0);
    let msg = apply_roll(&mut b, &mut r, EventRoll::Storm).unwrap();
    assert_eq!(msg, "A storm destroyed 3 farms!");
    assert_eq!(b.level(BuildingType::Farm), 20);
    let mut none = Buildings::default();
    assert!(apply_roll(&mut none, &mut r, EventRoll::Storm).is_none());
}

#[test]
fn treasure_adds_gold() {
    let mut b = Buildings::default();
    let mut r = res(0, 0, 0, 0, 0);
    let msg = apply_roll(&mut b, &mut r, EventRoll::Treasure(17)).unwrap();
    assert_eq!(msg, "Found a hidden treasure worth 17 gold!");
    assert_eq!(r.gold, 17 * UNIT);
    assert!(apply_roll(&mut b, &mut r, EventRoll::Calm).is_none());
    assert_eq!(r.gold, 17 * UNIT);
}

#[test]
fn random_treasure_stays_in_range() {
    let mut found = 0;
    let mut amounts = std::collections::BTreeSet::new();
    for seed in 0..200 {
        let mut rng = StdRng::seed_from_u64(seed);
        let mut r = res(0, 0, 0, 0, 0);
        if let Some(msg) = treasure_event(&mut r, &mut rng, CERTAIN) {
            found += 1;
            assert!(r.gold >= 5 * UNIT && r.gold < 20 * UNIT);
            assert_eq!(r.gold % UNIT, 0);
            amounts.insert(r.gold / UNIT);
            assert_eq!(msg, format!("Found a hidden treasure worth {} gold!", r.gold / UNIT));
        } else {
            assert_eq!(r.gold, 0);
        }
        let mut rng = StdRng::seed_from_u64(seed);
        assert!(treasure_event(&mut r, &mut rng, 0).is_none());
    }
    assert!(found > 50 && found < 150);
    assert!(amounts.len() > 5);
}

#[test]
fn rolls_without_chance_are_calm() {
    let mut rng = StdRng::seed_from_u64(22);
    for _ in 0..100 {
        assert_eq!(roll_event(&mut rng, 0), EventRoll::Calm);
    }
    let mut storms = 0;
    for _ in 0..100 {
        match roll_event(&mut rng, CERTAIN) {
            EventRoll::Storm => storms += 1,
            EventRoll::Treasure(a) => assert!((5..20).contains(&a)),
            EventRoll::Calm => {}
        }
    }
    assert!(storms > 20);
}

#[test]
fn odds_handed_to_the_draws() {
    assert_eq!(event_odds(0), (0, CERTAIN, 2 * CERTAIN));
    assert_eq!(event_odds(50_000), (50_000, CERTAIN, 2 * CERTAIN));
    assert_eq!(event_odds(CERTAIN), (CERTAIN, CERTAIN, 2 * CERTAIN));
    assert_eq!(event_odds(u32::MAX), (CERTAIN, CERTAIN, 2 * CERTAIN));
}

#[test]
fn draws_make_the_roll() {
    assert_eq!(roll_of(true, true, false, 5), EventRoll::Storm);
    assert_eq!(roll_of(true, false, true, 5), EventRoll::Calm);
    assert_eq!(roll_of(false, true, true, 12), EventRoll::Treasure(12));
    assert_eq!(roll_of(false, true, false, 12), EventRoll::Calm);
}
