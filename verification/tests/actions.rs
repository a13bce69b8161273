use hamurabi::{ActionResult, GameAction, GamePhase, GameState};

fn fresh_game(seed: u64) -> GameState {
    let mut game = GameState::new(Some(seed), false);
    game.current_phase = GamePhase::LandTransaction;
    game
}

#[test]
fn buy_land_covered_succeeds_exactly() {
    let mut game = fresh_game(7);
    let price = game.land_price;
    assert!((17..=26).contains(&price));
    // 100 acres cost at most 2600, which 2800 bushels always cover.
    let result = game.execute_action(GameAction::BuyLand(100));
    assert!(matches!(result, ActionResult::Success));
    assert_eq!(game.grain, 2800 - 100 * price);
    assert_eq!(game.land, 1100);
}

#[test]
fn buy_land_zero_is_a_no_op() {
    let mut game = fresh_game(7);
    let result = game.execute_action(GameAction::BuyLand(0));
    assert!(matches!(result, ActionResult::Success));
    assert_eq!(game.grain, 2800);
    assert_eq!(game.land, 1000);
}

#[test]
fn buy_land_uncovered_is_rejected_unchanged() {
    let mut game = fresh_game(7);
    // 10000 acres cost at least 170000 bushels, far over 2800.
    let result = game.execute_action(GameAction::BuyLand(10_000));
    assert!(matches!(result, ActionResult::InsufficientGrain));
    assert_eq!(game.grain, 2800);
    assert_eq!(game.land, 1000);
}

#[test]
fn sell_land_over_holdings_is_rejected_unchanged() {
    let mut game = fresh_game(11);
    let result = game.execute_action(GameAction::SellLand(1001));
    assert!(matches!(result, ActionResult::InsufficientLand));
    assert_eq!(game.grain, 2800);
    assert_eq!(game.land, 1000);
}

#[test]
fn sell_land_covered_succeeds_exactly() {
    let mut game = fresh_game(11);
    let price = game.land_price;
    let result = game.execute_action(GameAction::SellLand(500));
    assert!(matches!(result, ActionResult::Success));
    assert_eq!(game.land, 500);
    assert_eq!(game.grain, 2800 + 500 * price);
}

#[test]
fn plant_all_land_from_the_start() {
    let mut game = fresh_game(3);
    assert_eq!(game.year, 1);
    assert_eq!(game.population, 100);
    assert_eq!(game.grain, 2800);
    assert_eq!(game.land, 1000);
    // 1000 acres: within the land, the grain, and 100 workers' capacity.
    let result = game.execute_action(GameAction::PlantAcres(1000));
    assert!(matches!(result, ActionResult::Success));
    assert_eq!(game.grain, 1800);
    assert_eq!(game.acres_planted, 1000);
}

#[test]
fn plant_zero_resets_planting() {
    let mut game = fresh_game(3);
    assert!(matches!(
        game.execute_action(GameAction::PlantAcres(500)),
        ActionResult::Success
    ));
    assert_eq!(game.acres_planted, 500);
    let result = game.execute_action(GameAction::PlantAcres(0));
    assert!(matches!(result, ActionResult::Success));
    assert_eq!(game.acres_planted, 0);
}

#[test]
fn plant_over_land_is_rejected() {
    let mut game = fresh_game(3);
    let result = game.execute_action(GameAction::PlantAcres(1500));
    assert!(matches!(result, ActionResult::InsufficientLand));
    assert_eq!(game.grain, 2800);
    assert_eq!(game.acres_planted, 0);
}

#[test]
fn plant_over_grain_is_rejected() {
    let mut game = fresh_game(3);
    game.grain = 400;
    let result = game.execute_action(GameAction::PlantAcres(600));
    assert!(matches!(result, ActionResult::InsufficientGrain));
    assert_eq!(game.grain, 400);
    assert_eq!(game.acres_planted, 0);
}

#[test]
fn plant_over_worker_capacity_is_rejected() {
    let mut game = fresh_game(3);
    game.land = 20_000;
    game.grain = 20_000;
    // 1500 acres would need 150 workers; 100 subjects work 1000 acres.
    let result = game.execute_action(GameAction::PlantAcres(1500));
    assert!(matches!(result, ActionResult::InsufficientPopulation));
    assert_eq!(game.grain, 20_000);
    assert_eq!(game.acres_planted, 0);
}

#[test]
fn feed_full_ration_keeps_everyone() {
    let mut game = fresh_game(5);
    let result = game.execute_action(GameAction::FeedPopulation(2000));
    assert!(matches!(result, ActionResult::Success));
    // 2000 bushels feed 100 people: nobody starves.
    assert_eq!(game.deaths_starvation, 0);
    assert_eq!(game.population, 100);
    assert_eq!(game.grain, 800);
    assert_eq!(game.total_deaths, 0);
}

#[test]
fn feed_half_ration_starves_half() {
    let mut game = fresh_game(5);
    let result = game.execute_action(GameAction::FeedPopulation(1000));
    assert!(matches!(result, ActionResult::Success));
    // 1000 bushels feed 50 of 100 people: the other 50 starve.
    assert_eq!(game.deaths_starvation, 50);
    assert_eq!(game.population, 50);
    assert_eq!(game.total_deaths, 50);
    assert_eq!(game.grain, 1800);
}

#[test]
fn feed_over_grain_is_rejected_unchanged() {
    let mut game = fresh_game(5);
    let result = game.execute_action(GameAction::FeedPopulation(3000));
    assert!(matches!(result, ActionResult::InsufficientGrain));
    assert_eq!(game.grain, 2800);
    assert_eq!(game.population, 100);
    assert_eq!(game.total_deaths, 0);
}

#[test]
fn land_transaction_turn_moves_phase_on_success() {
    let mut game = fresh_game(9);
    let price = game.land_price;
    let result = game.submit_land_transaction(50);
    assert!(matches!(result, ActionResult::Success));
    assert_eq!(game.land, 1050);
    assert_eq!(game.grain, 2800 - 50 * price);
    assert_eq!(game.current_phase, GamePhase::Planting);
}

#[test]
fn land_transaction_turn_sells_on_negative() {
    let mut game = fresh_game(9);
    let price = game.land_price;
    let result = game.submit_land_transaction(-200);
    assert!(matches!(result, ActionResult::Success));
    assert_eq!(game.land, 800);
    assert_eq!(game.grain, 2800 + 200 * price);
    assert_eq!(game.current_phase, GamePhase::Planting);
}

#[test]
fn land_transaction_turn_declines_on_zero() {
    let mut game = fresh_game(9);
    let result = game.submit_land_transaction(0);
    assert!(matches!(result, ActionResult::Success));
    assert_eq!(game.land, 1000);
    assert_eq!(game.grain, 2800);
    assert_eq!(game.current_phase, GamePhase::Planting);
}

#[test]
fn land_transaction_turn_stays_on_rejection() {
    let mut game = fresh_game(9);
    let result = game.submit_land_transaction(-5000);
    assert!(matches!(result, ActionResult::InsufficientLand));
    assert_eq!(game.current_phase, GamePhase::LandTransaction);
    assert_eq!(game.land, 1000);
    assert_eq!(game.grain, 2800);
}

#[test]
fn planting_turn_moves_phase_on_success() {
    let mut game = fresh_game(13);
    game.current_phase = GamePhase::Planting;
    let result = game.submit_planting(800);
    assert!(matches!(result, ActionResult::Success));
    assert_eq!(game.acres_planted, 800);
    assert_eq!(game.grain, 2000);
    assert_eq!(game.current_phase, GamePhase::Feeding);
}

#[test]
fn planting_turn_stays_on_rejection() {
    let mut game = fresh_game(13);
    game.current_phase = GamePhase::Planting;
    let result = game.submit_planting(1500);
    assert!(matches!(result, ActionResult::InsufficientLand));
    assert_eq!(game.current_phase, GamePhase::Planting);
    assert_eq!(game.acres_planted, 0);
}
