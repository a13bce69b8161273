//! The game state: all economic counters, the current phase and the owned
//! random stream, together with its mathematical model.

use vstd::prelude::*;

use crate::rng::{draw, history_of, seed_of, seeded_draw, stream_from_entropy, stream_from_seed,
    RngStream};

verus! {

/// The steps of one year, in their cyclic order, preceded by the two
/// UI-only screens of the very first year and followed by the terminal
/// state.
#[derive(Debug, Clone, Copy, PartialEq, Eq, Structural)]
pub enum GamePhase {
    Splash,
    Instructions,
    LandTransaction,
    Planting,
    Feeding,
    YearEnd,
    GameOver,
}

/// The single owned entity the simulation mutates: economic counters, the
/// per-year transient counters, the current phase and the random stream.
pub struct GameState {
    pub year: u32,
    pub population: u32,
    pub grain: u32,
    pub land: u32,
    pub land_price: u32,
    pub harvest_yield: u32,
    pub grain_eaten_by_rats: u32,
    pub new_citizens: u32,
    pub deaths_starvation: u32,
    pub deaths_plague: u32,
    pub total_deaths: u32,
    pub grain_harvested: u32,
    pub acres_planted: u32,
    pub rng: RngStream,
    pub current_phase: GamePhase,
    pub unlimited_mode: bool,
}

/// The mathematical model of a [`GameState`]: its counters as unbounded
/// integers, its phase, and the ghost description of its random stream (the
/// seed, if one was given, and the bounds of every draw made so far).
#[verifier::ext_equal]
pub struct StateModel {
    pub year: int,
    pub population: int,
    pub grain: int,
    pub land: int,
    pub land_price: int,
    pub harvest_yield: int,
    pub grain_eaten_by_rats: int,
    pub new_citizens: int,
    pub deaths_starvation: int,
    pub deaths_plague: int,
    pub total_deaths: int,
    pub grain_harvested: int,
    pub acres_planted: int,
    pub seed: Option<u64>,
    pub history: Seq<u32>,
    pub phase: GamePhase,
    pub unlimited: bool,
}

impl View for GameState {
    type V = StateModel;

    open spec fn view(&self) -> StateModel {
        StateModel {
            year: self.year as int,
            population: self.population as int,
            grain: self.grain as int,
            land: self.land as int,
            land_price: self.land_price as int,
            harvest_yield: self.harvest_yield as int,
            grain_eaten_by_rats: self.grain_eaten_by_rats as int,
            new_citizens: self.new_citizens as int,
            deaths_starvation: self.deaths_starvation as int,
            deaths_plague: self.deaths_plague as int,
            total_deaths: self.total_deaths as int,
            grain_harvested: self.grain_harvested as int,
            acres_planted: self.acres_planted as int,
            seed: seed_of(self.rng),
            history: history_of(self.rng),
            phase: self.current_phase,
            unlimited: self.unlimited_mode,
        }
    }
}

/// Whether a model is one a [`GameState`] can hold: every counter fits a
/// `u32`. The view of a real state always satisfies this.
pub open spec fn valid_model(m: StateModel) -> bool {
    &&& 0 <= m.year <= u32::MAX
    &&& 0 <= m.population <= u32::MAX
    &&& 0 <= m.grain <= u32::MAX
    &&& 0 <= m.land <= u32::MAX
    &&& 0 <= m.land_price <= u32::MAX
    &&& 0 <= m.harvest_yield <= u32::MAX
    &&& 0 <= m.grain_eaten_by_rats <= u32::MAX
    &&& 0 <= m.new_citizens <= u32::MAX
    &&& 0 <= m.deaths_starvation <= u32::MAX
    &&& 0 <= m.deaths_plague <= u32::MAX
    &&& 0 <= m.total_deaths <= u32::MAX
    &&& 0 <= m.grain_harvested <= u32::MAX
    &&& 0 <= m.acres_planted <= u32::MAX
}

/// The value the next draw between `lo` and `hi` yields on a seeded stream
/// in the state `m` describes.
pub open spec fn draw_of(m: StateModel, lo: u32, hi: u32) -> u32 {
    seeded_draw(m.seed->Some_0, m.history, lo, hi)
}

/// The state a new game starts in, given the land price drawn at birth:
/// year 1, 100 subjects, 2800 bushels, 1000 acres, the splash screen.
pub open spec fn initial_model(seed: Option<u64>, unlimited: bool, price: u32) -> StateModel {
    StateModel {
        year: 1,
        population: 100,
        grain: 2800,
        land: 1000,
        land_price: price as int,
        harvest_yield: 3,
        grain_eaten_by_rats: 0,
        new_citizens: 0,
        deaths_starvation: 0,
        deaths_plague: 0,
        total_deaths: 0,
        grain_harvested: 0,
        acres_planted: 0,
        seed,
        history: seq![17u32, 26u32],
        phase: GamePhase::Splash,
        unlimited,
    }
}

/// The year-advance transition: one more year, a fresh land price, the
/// per-year transient counters reset, back to the land-transaction phase.
pub open spec fn apply_advance(m: StateModel, price: u32) -> StateModel {
    StateModel {
        year: m.year + 1,
        land_price: price as int,
        harvest_yield: 0,
        grain_eaten_by_rats: 0,
        new_citizens: 0,
        deaths_starvation: 0,
        deaths_plague: 0,
        grain_harvested: 0,
        acres_planted: 0,
        history: m.history + seq![17u32, 26u32],
        phase: GamePhase::LandTransaction,
        ..m
    }
}

/// The game-over predicate: the year cap (unless unlimited mode is on), an
/// empty kingdom, or a catastrophic starvation rate. The population test
/// stands before the rate test, so the rate's divisor is never zero.
pub open spec fn game_over_spec(m: StateModel) -> bool {
    ||| (!m.unlimited && m.year > 10)
    ||| m.population == 0
    ||| (m.deaths_starvation > 0 && m.deaths_starvation * 100 / (m.population
        + m.deaths_starvation) > 45)
}

/// The catastrophic-mismanagement ending, distinct from the normal one:
/// more than 45 percent of this year's subjects starved.
pub open spec fn catastrophe_spec(m: StateModel) -> bool {
    m.deaths_starvation > 0 && m.deaths_starvation * 100 / (m.population + m.deaths_starvation)
        > 45
}

impl GameState {
    /// Builds a game, seeded for a reproducible run or from entropy, and
    /// draws the first land price.
    pub fn new(seed: Option<u64>, unlimited: bool) -> (s: GameState)
        ensures
            s@ == initial_model(seed, unlimited, s.land_price),
            17 <= s.land_price <= 26,
            seed matches Some(sd) ==> s.land_price == seeded_draw(
                sd,
                Seq::<u32>::empty(),
                17,
                26,
            ),
    {
        let mut rng = match seed {
            Some(sd) => stream_from_seed(sd),
            None => stream_from_entropy(),
        };

        let initial_land_price = draw(&mut rng, 17, 26);

        let s = GameState {
            year: 1,
            population: 100,
            grain: 2800,
            land: 1000,
            land_price: initial_land_price,
            harvest_yield: 3,
            grain_eaten_by_rats: 0,
            new_citizens: 0,
            deaths_starvation: 0,
            deaths_plague: 0,
            total_deaths: 0,
            grain_harvested: 0,
            acres_planted: 0,
            rng,
            current_phase: GamePhase::Splash,
            unlimited_mode: unlimited,
        };
        proof {
            assert(s@ =~= initial_model(seed, unlimited, s.land_price));
        }
        s
    }

    /// The explicit year-advance transition out of the year-end phase.
    pub fn advance_year(&mut self)
        requires
            old(self)@.phase is YearEnd,
            old(self).year < u32::MAX,
        ensures
            exists|price: u32|
                17 <= price <= 26 && final(self)@ == #[trigger] apply_advance(
                    old(self)@,
                    price,
                ),
            old(self)@.seed is Some ==> final(self)@ == apply_advance(
                old(self)@,
                draw_of(old(self)@, 17, 26),
            ),
    {
        self.year = self.year + 1;
        self.land_price = draw(&mut self.rng, 17, 26);
        self.current_phase = GamePhase::LandTransaction;

        // Reset per-year tracking variables
        self.harvest_yield = 0;
        self.grain_eaten_by_rats = 0;
        self.new_citizens = 0;
        self.deaths_starvation = 0;
        self.deaths_plague = 0;
        self.grain_harvested = 0;
        self.acres_planted = 0;

        proof {
            assert(final(self)@ =~= apply_advance(old(self)@, final(self).land_price));
        }
    }

    /// The largest planting the preconditions allow: ten acres per worker,
    /// one bushel of seed per acre, and no more than the land owned.
    pub fn max_plantable_acres(&self) -> (r: u32)
        ensures
            r == vstd::math::min(
                vstd::math::min(self@.population * 10, self@.grain),
                self@.land,
            ),
    {
        let by_population: u64 = (self.population as u64) * 10;
        let by_grain: u64 = self.grain as u64;
        let by_land: u64 = self.land as u64;

        let mut m: u64 = by_population;
        if by_grain < m {
            m = by_grain;
        }
        if by_land < m {
            m = by_land;
        }
        m as u32
    }

    /// The grain a full ration costs: twenty bushels per subject.
    pub fn grain_needed_for_feeding(&self) -> (r: u32)
        requires
            self@.population * 20 <= u32::MAX,
        ensures
            r == self@.population * 20,
    {
        self.population * 20
    }

    /// Whether the reign has ended, by the rules of [`game_over_spec`].
    pub fn is_game_over(&self) -> (r: bool)
        ensures
            r == game_over_spec(self@),
    {
        if !self.unlimited_mode && self.year > 10 {
            return true;
        }

        if self.population == 0 {
            return true;
        }

        if self.deaths_starvation > 0 {
            let num: u64 = (self.deaths_starvation as u64) * 100;
            let den: u64 = (self.population as u64) + (self.deaths_starvation as u64);
            if num / den > 45 {
                return true;
            }
        }

        false
    }

    /// Whether this year's starvation was bad enough for the
    /// catastrophic-mismanagement ending rather than the normal one.
    pub fn is_catastrophic_ending(&self) -> (r: bool)
        ensures
            r == catastrophe_spec(self@),
    {
        if self.deaths_starvation > 0 {
            let num: u64 = (self.deaths_starvation as u64) * 100;
            let den: u64 = (self.population as u64) + (self.deaths_starvation as u64);
            num / den > 45
        } else {
            false
        }
    }

    /// Kept for compatibility: the state no longer stores a history of year
    /// summaries, so this changes nothing.
    pub fn save_year_summary(&mut self)
        ensures
            final(self)@ == old(self)@,
    {
    }
}

} // verus!
