use incremental_rust_game::Game;

#[test]
fn craft_axe_only_once() {
    let mut game = Game::new();
    game.wood = 20;
    game.stone = 20;
    assert!(game.craft_axe());
    assert!(!game.craft_axe());
    assert_eq!(game.get_wood(), 10);
    assert_eq!(game.get_stone(), 15);
}

#[test]
fn craft_pickaxe_only_once() {
    let mut game = Game::new();
    game.wood = 20;
    game.stone = 20;
    assert!(game.craft_pickaxe());
    assert!(!game.craft_pickaxe());
    assert_eq!(game.get_wood(), 15);
    assert_eq!(game.get_stone(), 10);
}

#[test]
fn build_farm_and_generate_food() {
    let mut game = Game::new();
    game.wood = 20;
    game.stone = 20;
    assert!(game.build_farm());
    assert_eq!(game.get_farms(), 1);
    assert_eq!(game.get_wood(), 10);
    assert_eq!(game.get_stone(), 10);
    game.passive_food_generation();
    assert_eq!(game.get_food(), 1);
}

#[test]
fn craft_axe_only_once_integration() {
    let mut game = Game::new();
    for _ in 0..10 {
        game.collect_wood();
    }
    for _ in 0..5 {
        game.collect_stone();
    }

    // First crafting should succeed
    assert!(game.craft_axe());
    assert_eq!(game.get_wood(), 0);
    assert_eq!(game.get_stone(), 0);

    // Second crafting should fail and not change resources
    assert!(!game.craft_axe());
    assert_eq!(game.get_wood(), 0);
    assert_eq!(game.get_stone(), 0);
}

#[test]
fn craft_pickaxe_only_once_integration() {
    let mut game = Game::new();
    for _ in 0..5 {
        game.collect_wood();
    }
    for _ in 0..10 {
        game.collect_stone();
    }

    // First crafting should succeed
    assert!(game.craft_pickaxe());
    assert_eq!(game.get_wood(), 0);
    assert_eq!(game.get_stone(), 0);

    // Second crafting should fail and not change resources
    assert!(!game.craft_pickaxe());
    assert_eq!(game.get_wood(), 0);
    assert_eq!(game.get_stone(), 0);
}

#[test]
fn farm_produces_food_integration() {
    let mut game = Game::new();
    for _ in 0..10 {
        game.collect_wood();
    }
    for _ in 0..10 {
        game.collect_stone();
    }
    assert!(game.build_farm());
    assert_eq!(game.get_farms(), 1);
    game.passive_food_generation();
    assert_eq!(game.get_food(), 1);
}

#[test]
fn farm_needs_wood_and_stone() {
    let mut game = Game::new();
    for _ in 0..9 {
        game.collect_wood();
    }
    for _ in 0..10 {
        game.collect_stone();
    }
    assert!(!game.build_farm());
    assert_eq!(game.get_farms(), 0);
    assert_eq!(game.get_wood(), 9);
    assert_eq!(game.get_stone(), 10);
}

#[test]
fn tools_gather_passively() {
    let mut game = Game::new();
    game.passive_wood_collection();
    game.passive_stone_collection();
    assert_eq!(game.get_wood(), 0);
    assert_eq!(game.get_stone(), 0);
    game.wood = 15;
    game.stone = 15;
    assert!(game.craft_axe());
    assert!(game.craft_pickaxe());
    assert!(game.has_axe());
    assert!(game.has_pickaxe());
    assert_eq!(game.get_wood(), 0);
    assert_eq!(game.get_stone(), 0);
    game.passive_wood_collection();
    game.passive_stone_collection();
    assert_eq!(game.get_wood(), 1);
    assert_eq!(game.get_stone(), 1);
}

#[test]
fn collecting_food_by_hand() {
    let mut game = Game::new();
    game.collect_food();
    game.collect_food();
    assert_eq!(game.get_food(), 2);
    game.passive_food_generation();
    assert_eq!(game.get_food(), 2);
}
