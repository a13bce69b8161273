use hamurabi::{ActionResult, EventRecord, EventHandler, GamePhase, GameState};

fn phase_index(phase: GamePhase) -> u32 {
    match phase {
        GamePhase::Splash => 0,
        GamePhase::Instructions => 1,
        GamePhase::LandTransaction => 2,
        GamePhase::Planting => 3,
        GamePhase::Feeding => 4,
        GamePhase::YearEnd => 5,
        GamePhase::GameOver => 6,
    }
}

fn snapshot(game: &GameState) -> Vec<u32> {
    vec![
        game.year,
        game.population,
        game.grain,
        game.land,
        game.land_price,
        game.harvest_yield,
        game.grain_eaten_by_rats,
        game.new_citizens,
        game.deaths_starvation,
        game.deaths_plague,
        game.total_deaths,
        game.grain_harvested,
        game.acres_planted,
        phase_index(game.current_phase),
    ]
}

/// Plays a few fixed years and returns the trajectory of snapshots and the
/// records of every yearly pipeline.
fn play_fixed_run(seed: u64) -> (Vec<Vec<u32>>, Vec<Vec<EventRecord>>) {
    let _events = EventHandler::new();
    let mut game = GameState::new(Some(seed), false);
    game.current_phase = GamePhase::LandTransaction;

    let mut trajectory = vec![snapshot(&game)];
    let mut yearly_records = Vec::new();

    let turns: [(i32, u32); 3] = [(20, 500), (-10, 400), (0, 300)];
    for (land_amount, acres) in turns {
        if game.current_phase != GamePhase::LandTransaction {
            break;
        }
        let r = game.submit_land_transaction(land_amount);
        trajectory.push(snapshot(&game));
        if !matches!(r, ActionResult::Success) {
            break;
        }
        let r = game.submit_planting(acres);
        trajectory.push(snapshot(&game));
        if !matches!(r, ActionResult::Success) {
            break;
        }
        let bushels = if game.grain < 2000 { game.grain } else { 2000 };
        let (r, records) = game.submit_feeding(bushels);
        trajectory.push(snapshot(&game));
        yearly_records.push(records);
        if !matches!(r, ActionResult::Success) {
            break;
        }
        if game.current_phase == GamePhase::GameOver {
            break;
        }
        game.advance_year();
        trajectory.push(snapshot(&game));
    }
    (trajectory, yearly_records)
}

#[test]
fn same_seed_same_trajectory() {
    for seed in [0u64, 1, 42, 123_456_789, u64::MAX] {
        let (trajectory_a, records_a) = play_fixed_run(seed);
        let (trajectory_b, records_b) = play_fixed_run(seed);
        assert_eq!(trajectory_a, trajectory_b);
        assert_eq!(records_a, records_b);
    }
}

#[test]
fn same_seed_same_initial_price() {
    for seed in [0u64, 7, 99] {
        let a = GameState::new(Some(seed), false);
        let b = GameState::new(Some(seed), false);
        assert_eq!(a.land_price, b.land_price);
        assert!((17..=26).contains(&a.land_price));
    }
}

#[test]
fn different_seeds_eventually_differ() {
    // Not a kernel guarantee, but a check that the stream is really driven
    // by the seed: among many seeds the initial price cannot be constant.
    let prices: Vec<u32> = (0..50u64)
        .map(|seed| GameState::new(Some(seed), false).land_price)
        .collect();
    assert!(prices.iter().any(|p| *p != prices[0]));
}

#[test]
fn unseeded_games_stay_in_bounds() {
    let game = GameState::new(None, false);
    assert!((17..=26).contains(&game.land_price));
    assert_eq!(game.grain, 2800);
    assert_eq!(game.population, 100);
    assert_eq!(game.land, 1000);
    assert_eq!(game.year, 1);
    assert_eq!(game.current_phase, GamePhase::Splash);
    assert!(!game.unlimited_mode);
}
