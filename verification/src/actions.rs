//! The action engine: each player action is validated and then applied
//! atomically, so a rejected action leaves the state untouched.

use vstd::prelude::*;

use crate::state::{valid_model, GamePhase, GameState, StateModel};

verus! {

/// One player-submitted action for the current phase.
#[derive(Debug, Clone, PartialEq, Eq, Structural)]
pub enum GameAction {
    BuyLand(u32),
    SellLand(u32),
    PlantAcres(u32),
    FeedPopulation(u32),
}

/// The typed outcome of an action: success, or the resource it lacked.
#[derive(Debug, Clone, PartialEq, Eq, Structural)]
pub enum ActionResult {
    Success,
    InsufficientGrain,
    InsufficientLand,
    InsufficientPopulation,
}

/// Buying `acres` at the current land price: free as a no-op at zero, needs
/// grain to cover the full cost, and trades grain for land exactly.
pub open spec fn apply_buy(m: StateModel, acres: u32) -> (StateModel, ActionResult) {
    if acres == 0 {
        (m, ActionResult::Success)
    } else if acres as int * m.land_price <= m.grain {
        (
            StateModel {
                grain: m.grain - acres as int * m.land_price,
                land: m.land + acres as int,
                ..m
            },
            ActionResult::Success,
        )
    } else {
        (m, ActionResult::InsufficientGrain)
    }
}

/// Selling `acres` at the current land price: free as a no-op at zero, needs
/// the land to be owned, and trades land for grain exactly.
pub open spec fn apply_sell(m: StateModel, acres: u32) -> (StateModel, ActionResult) {
    if acres == 0 {
        (m, ActionResult::Success)
    } else if acres as int > m.land {
        (m, ActionResult::InsufficientLand)
    } else {
        (
            StateModel {
                land: m.land - acres as int,
                grain: m.grain + acres as int * m.land_price,
                ..m
            },
            ActionResult::Success,
        )
    }
}

/// Planting `acres`: zero resets the planting (the way to decline), else the
/// acres must be owned, seeded at one bushel each, and worked at ten acres
/// per subject.
pub open spec fn apply_plant(m: StateModel, acres: u32) -> (StateModel, ActionResult) {
    if acres == 0 {
        (StateModel { acres_planted: 0, ..m }, ActionResult::Success)
    } else if acres as int > m.land {
        (m, ActionResult::InsufficientLand)
    } else if acres as int > m.grain {
        (m, ActionResult::InsufficientGrain)
    } else if acres as int > m.population * 10 {
        (m, ActionResult::InsufficientPopulation)
    } else {
        (
            StateModel { grain: m.grain - acres as int, acres_planted: acres as int, ..m },
            ActionResult::Success,
        )
    }
}

/// Feeding `bushels` of grain: twenty bushels feed one subject; anyone not
/// fed starves, and the starved join the death toll.
pub open spec fn apply_feed(m: StateModel, bushels: u32) -> (StateModel, ActionResult) {
    if bushels as int > m.grain {
        (m, ActionResult::InsufficientGrain)
    } else {
        let fed = bushels as int / 20;
        if fed < m.population {
            (
                StateModel {
                    grain: m.grain - bushels as int,
                    deaths_starvation: m.population - fed,
                    population: fed,
                    total_deaths: m.total_deaths + (m.population - fed),
                    ..m
                },
                ActionResult::Success,
            )
        } else {
            (
                StateModel { grain: m.grain - bushels as int, deaths_starvation: 0, ..m },
                ActionResult::Success,
            )
        }
    }
}

/// What one action does to the state, and with what result.
pub open spec fn apply_action(m: StateModel, action: GameAction) -> (StateModel, ActionResult) {
    match action {
        GameAction::BuyLand(acres) => apply_buy(m, acres),
        GameAction::SellLand(acres) => apply_sell(m, acres),
        GameAction::PlantAcres(acres) => apply_plant(m, acres),
        GameAction::FeedPopulation(bushels) => apply_feed(m, bushels),
    }
}

/// The bounds the 32-bit counters force on an action: a successful purchase
/// may not push the land, a successful sale may not push the grain, and a
/// starvation may not push the death toll, past what a `u32` holds.
pub open spec fn action_admissible(m: StateModel, action: GameAction) -> bool {
    match action {
        GameAction::BuyLand(acres) => acres as int * m.land_price <= m.grain ==> m.land
            + acres as int <= u32::MAX,
        GameAction::SellLand(acres) => acres as int <= m.land ==> m.grain + acres as int
            * m.land_price <= u32::MAX,
        GameAction::PlantAcres(_) => true,
        GameAction::FeedPopulation(bushels) => (bushels as int <= m.grain && bushels as int / 20
            < m.population) ==> m.total_deaths + m.population - bushels as int / 20 <= u32::MAX,
    }
}

/// The land-transaction turn, with the parsed number's sign telling buying
/// from selling and zero declining the trade: on success the phase moves on
/// to planting, on a rejection nothing changes.
pub open spec fn apply_land_transaction(m: StateModel, amount: i32) -> (StateModel, ActionResult) {
    if amount == 0 {
        (StateModel { phase: GamePhase::Planting, ..m }, ActionResult::Success)
    } else {
        let action = if amount > 0 {
            GameAction::BuyLand(amount as u32)
        } else {
            GameAction::SellLand((-(amount as int)) as u32)
        };
        let mr = apply_action(m, action);
        if mr.1 is Success {
            (StateModel { phase: GamePhase::Planting, ..mr.0 }, mr.1)
        } else {
            mr
        }
    }
}

/// The planting turn: on success — planting zero included — the phase moves
/// on to feeding, on a rejection nothing changes.
pub open spec fn apply_planting(m: StateModel, acres: u32) -> (StateModel, ActionResult) {
    let mr = apply_plant(m, acres);
    if mr.1 is Success {
        (StateModel { phase: GamePhase::Feeding, ..mr.0 }, mr.1)
    } else {
        mr
    }
}

/// Whenever the grain covers the full cost of a purchase, buying succeeds
/// and trades grain for land exactly: the grain falls by the cost and the
/// land grows by the acres bought.
pub proof fn lemma_buy_covered_succeeds(m: StateModel, acres: u32)
    requires
        valid_model(m),
        acres as int * m.land_price <= m.grain,
    ensures
        ({
            let (m1, r) = apply_buy(m, acres);
            &&& r is Success
            &&& m1.grain == m.grain - acres as int * m.land_price
            &&& m1.land == m.land + acres as int
        }),
{
    if acres == 0 {
        assert(acres as int * m.land_price == 0) by (nonlinear_arith)
            requires
                acres as int == 0,
        ;
    }
}

/// Selling more land than is owned is rejected for the lack of land and
/// changes nothing at all — in particular neither grain nor land.
pub proof fn lemma_sell_uncovered_rejected(m: StateModel, acres: u32)
    requires
        valid_model(m),
        acres as int > m.land,
    ensures
        ({
            let (m1, r) = apply_sell(m, acres);
            &&& r is InsufficientLand
            &&& m1 == m
        }),
{
}

/// A successful planting never books more planted acres than the kingdom
/// owns: right after it, the planted acres lie within the land.
pub proof fn lemma_planting_within_land(m: StateModel, acres: u32)
    requires
        valid_model(m),
    ensures
        ({
            let (m1, r) = apply_plant(m, acres);
            r is Success ==> m1.acres_planted <= m1.land
        }),
{
}

/// The running death toll only ever grows: no action lowers it, and no
/// year of events — over the draws the pipeline can make — lowers it.
pub proof fn lemma_death_toll_monotonic(
    m: StateModel,
    action: GameAction,
    y: u32,
    rr: u32,
    dp: u32,
    pr: u32,
)
    requires
        valid_model(m),
        10 <= dp <= 30,
        m.deaths_starvation == 0 ==> m.population > 0,
    ensures
        apply_action(m, action).0.total_deaths >= m.total_deaths,
        crate::events::apply_year_events(m, y, rr, dp, pr).0.total_deaths >= m.total_deaths,
{
    // Harvest adds a non-negative yield to the grain, and vermin eat no
    // more of it than there is, so the migration base is a quotient of
    // non-negative counters over a positive divisor; the epidemic then
    // halves a population that migration cannot have made negative.
    let he = crate::events::apply_harvest(m, y);
    assert(m.acres_planted * y >= 0) by (nonlinear_arith)
        requires
            m.acres_planted >= 0,
    ;
    let m1 = crate::events::push_draw(he.0, 0, 99);
    if rr < 40 {
        assert(0 <= m1.grain * dp / 100 <= m1.grain) by (nonlinear_arith)
            requires
                m1.grain >= 0,
                10 <= dp <= 30,
        ;
    }
    let m2 = if rr < 40 {
        crate::events::apply_rats(m1, dp).0
    } else {
        m1
    };
    if m2.deaths_starvation == 0 {
        vstd::arithmetic::div_mod::lemma_div_pos_is_pos(
            20 * m2.land + m2.grain,
            100 * m2.population,
        );
    }
    let m3 = crate::events::apply_immigration(m2).0;
    if pr < 15 {
        vstd::arithmetic::div_mod::lemma_div_pos_is_pos(m3.population, 2);
    }
}

impl GameState {
    /// Validates and applies one action; on any rejection the state is left
    /// unchanged and the typed failure is returned.
    pub fn execute_action(&mut self, action: GameAction) -> (r: ActionResult)
        requires
            action_admissible(old(self)@, action),
        ensures
            (final(self)@, r) == apply_action(old(self)@, action),
    {
        match action {
            GameAction::BuyLand(acres) => self.buy_land(acres),
            GameAction::SellLand(acres) => self.sell_land(acres),
            GameAction::PlantAcres(acres) => self.plant_acres(acres),
            GameAction::FeedPopulation(bushels) => self.feed_population(bushels),
        }
    }

    /// One whole land-transaction turn: a positive `amount` buys, a
    /// negative one sells, zero declines, and a success moves the phase on
    /// to planting.
    pub fn submit_land_transaction(&mut self, amount: i32) -> (r: ActionResult)
        requires
            old(self)@.phase is LandTransaction,
            amount > i32::MIN,
            amount > 0 ==> action_admissible(old(self)@, GameAction::BuyLand(amount as u32)),
            amount < 0 ==> action_admissible(
                old(self)@,
                GameAction::SellLand((-(amount as int)) as u32),
            ),
        ensures
            (final(self)@, r) == apply_land_transaction(old(self)@, amount),
    {
        if amount == 0 {
            self.current_phase = GamePhase::Planting;
            return ActionResult::Success;
        }

        let action = if amount > 0 {
            GameAction::BuyLand(amount as u32)
        } else {
            GameAction::SellLand((-amount) as u32)
        };
        let r = self.execute_action(action);
        if matches!(r, ActionResult::Success) {
            self.current_phase = GamePhase::Planting;
        }
        r
    }

    /// One whole planting turn: a success — planting zero included — moves
    /// the phase on to feeding.
    pub fn submit_planting(&mut self, acres: u32) -> (r: ActionResult)
        requires
            old(self)@.phase is Planting,
        ensures
            (final(self)@, r) == apply_planting(old(self)@, acres),
    {
        let r = self.execute_action(GameAction::PlantAcres(acres));
        if matches!(r, ActionResult::Success) {
            self.current_phase = GamePhase::Feeding;
        }
        r
    }

    fn buy_land(&mut self, acres: u32) -> (r: ActionResult)
        requires
            acres as int * old(self)@.land_price <= old(self)@.grain ==> old(self)@.land
                + acres as int <= u32::MAX,
        ensures
            (final(self)@, r) == apply_buy(old(self)@, acres),
    {
        if acres == 0 {
            return ActionResult::Success;
        }

        proof {
            assert((acres as int) * (self.land_price as int) <= 0xffff_ffff * 0xffff_ffff)
                by (nonlinear_arith)
                requires
                    0 <= acres as int <= 0xffff_ffff,
                    0 <= self.land_price as int <= 0xffff_ffff,
            ;
        }
        let cost: u64 = (acres as u64) * (self.land_price as u64);
        if cost > self.grain as u64 {
            return ActionResult::InsufficientGrain;
        }

        self.grain = self.grain - (cost as u32);
        self.land = self.land + acres;
        ActionResult::Success
    }

    fn sell_land(&mut self, acres: u32) -> (r: ActionResult)
        requires
            acres as int <= old(self)@.land ==> old(self)@.grain + acres as int
                * old(self)@.land_price <= u32::MAX,
        ensures
            (final(self)@, r) == apply_sell(old(self)@, acres),
    {
        if acres == 0 {
            return ActionResult::Success;
        }

        if acres > self.land {
            return ActionResult::InsufficientLand;
        }

        proof {
            assert((acres as int) * (self.land_price as int) <= 0xffff_ffff * 0xffff_ffff)
                by (nonlinear_arith)
                requires
                    0 <= acres as int <= 0xffff_ffff,
                    0 <= self.land_price as int <= 0xffff_ffff,
            ;
        }
        let proceeds: u64 = (acres as u64) * (self.land_price as u64);
        self.land = self.land - acres;
        self.grain = self.grain + (proceeds as u32);
        ActionResult::Success
    }

    fn plant_acres(&mut self, acres: u32) -> (r: ActionResult)
        ensures
            (final(self)@, r) == apply_plant(old(self)@, acres),
    {
        if acres == 0 {
            self.acres_planted = 0;
            return ActionResult::Success;
        }

        if acres > self.land {
            return ActionResult::InsufficientLand;
        }

        if acres > self.grain {
            return ActionResult::InsufficientGrain;
        }

        if (acres as u64) > (self.population as u64) * 10 {
            return ActionResult::InsufficientPopulation;
        }

        self.grain = self.grain - acres;
        self.acres_planted = acres;
        ActionResult::Success
    }

    fn feed_population(&mut self, bushels: u32) -> (r: ActionResult)
        requires
            (bushels as int <= old(self)@.grain && bushels as int / 20 < old(self)@.population)
                ==> old(self)@.total_deaths + old(self)@.population - bushels as int / 20
                <= u32::MAX,
        ensures
            (final(self)@, r) == apply_feed(old(self)@, bushels),
    {
        if bushels > self.grain {
            return ActionResult::InsufficientGrain;
        }

        self.grain = self.grain - bushels;

        let people_fed = bushels / 20;
        if people_fed < self.population {
            self.deaths_starvation = self.population - people_fed;
            self.population = people_fed;
            self.total_deaths = self.total_deaths + self.deaths_starvation;
        } else {
            self.deaths_starvation = 0;
        }

        ActionResult::Success
    }
}

} // verus!
