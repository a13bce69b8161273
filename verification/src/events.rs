//! The yearly event pipeline: harvest, vermin, migration and epidemic, run
//! in that fixed order with a fixed order of draws from the state's single
//! random stream, once per year right after the feeding action.

use vstd::prelude::*;

use crate::actions::{apply_action, apply_feed, ActionResult, GameAction};
use crate::state::{draw_of, game_over_spec, GamePhase, GameState, StateModel};
use crate::rng::draw;

verus! {

/// One outcome of the yearly pipeline: the category and the numeric facts.
/// Turning these into prose is the caller's business.
#[derive(Debug, Clone, PartialEq, Eq, Structural)]
pub enum EventRecord {
    Harvest { yield_per_acre: u32, total: u32 },
    Rats { eaten: u32 },
    Immigration { new_citizens: u32 },
    NoImmigration,
    Plague { deaths: u32 },
}

/// The model after one more draw with the given inclusive bounds.
pub open spec fn push_draw(m: StateModel, lo: u32, hi: u32) -> StateModel {
    StateModel { history: m.history + seq![lo, hi], ..m }
}

/// The harvest: one draw for the yield per acre, and the planted acres pay
/// out that many bushels each.
pub open spec fn apply_harvest(m: StateModel, y: u32) -> (StateModel, EventRecord) {
    let md = push_draw(m, 1, 5);
    let total = m.acres_planted * y;
    (
        StateModel { harvest_yield: y as int, grain_harvested: total, grain: m.grain + total, ..md },
        EventRecord::Harvest { yield_per_acre: y, total: total as u32 },
    )
}

/// The vermin loss: one draw for the damage percentage, taken of the grain
/// as it stands after the harvest.
pub open spec fn apply_rats(m: StateModel, dp: u32) -> (StateModel, EventRecord) {
    let md = push_draw(m, 10, 30);
    let eaten = m.grain * dp / 100;
    (
        StateModel { grain_eaten_by_rats: eaten, grain: m.grain - eaten, ..md },
        EventRecord::Rats { eaten: eaten as u32 },
    )
}

/// The migration: nobody comes to a kingdom that starved anyone this year;
/// otherwise an inflow grows with land and grain per subject, capped at 50.
pub open spec fn apply_immigration(m: StateModel) -> (StateModel, EventRecord) {
    if m.deaths_starvation > 0 {
        (StateModel { new_citizens: 0, ..m }, EventRecord::NoImmigration)
    } else {
        let base = (20 * m.land + m.grain) / (100 * m.population) + 1;
        let nc = vstd::math::min(base, 50);
        (
            StateModel { new_citizens: nc, population: m.population + nc, ..m },
            EventRecord::Immigration { new_citizens: nc as u32 },
        )
    }
}

/// The epidemic: half the population dies, rounding in the survivors'
/// favour, and the dead join the death toll.
pub open spec fn apply_plague(m: StateModel) -> (StateModel, EventRecord) {
    let d = m.population / 2;
    (
        StateModel {
            deaths_plague: d,
            population: m.population - d,
            total_deaths: m.total_deaths + d,
            ..m
        },
        EventRecord::Plague { deaths: d as u32 },
    )
}

/// The whole pipeline as a function of the four draws: the harvest yield
/// `y`, the vermin roll `rr` (triggering below 40), the damage percentage
/// `dp` (ignored unless the vermin triggered), and the epidemic roll `pr`
/// (triggering below 15). Harvest and migration always yield a record;
/// vermin and epidemic only when triggered.
pub open spec fn apply_year_events(m: StateModel, y: u32, rr: u32, dp: u32, pr: u32) -> (
    StateModel,
    Seq<EventRecord>,
) {
    let he = apply_harvest(m, y);
    let m1 = push_draw(he.0, 0, 99);
    let after_rats = if rr < 40 {
        let ra = apply_rats(m1, dp);
        (ra.0, seq![ra.1])
    } else {
        (m1, Seq::<EventRecord>::empty())
    };
    let im = apply_immigration(after_rats.0);
    let m3 = push_draw(im.0, 0, 99);
    let after_plague = if pr < 15 {
        let pl = apply_plague(m3);
        (pl.0, seq![pl.1])
    } else {
        (m3, Seq::<EventRecord>::empty())
    };
    (after_plague.0, seq![he.1] + after_rats.1 + seq![im.1] + after_plague.1)
}

/// The pipeline on a seeded stream: every draw is the one the seed and the
/// draw history determine, so the outcome is a function of the model alone.
pub open spec fn seeded_year_events(m: StateModel) -> (StateModel, Seq<EventRecord>)
    recommends
        m.seed is Some,
{
    let y = draw_of(m, 1, 5);
    let he = apply_harvest(m, y);
    let rr = draw_of(he.0, 0, 99);
    let m1 = push_draw(he.0, 0, 99);
    let dp = if rr < 40 {
        draw_of(m1, 10, 30)
    } else {
        10u32
    };
    let m2 = if rr < 40 {
        apply_rats(m1, dp).0
    } else {
        m1
    };
    let im = apply_immigration(m2);
    let pr = draw_of(im.0, 0, 99);
    apply_year_events(m, y, rr, dp, pr)
}

/// What the 32-bit counters ask of a state entering the pipeline: room for
/// the largest harvest, for the largest migration, and for the epidemic's
/// deaths; and the migration's divisor must not be zero.
pub open spec fn year_events_admissible(m: StateModel) -> bool {
    &&& m.grain + m.acres_planted * 5 <= u32::MAX
    &&& (m.deaths_starvation == 0 ==> m.population > 0)
    &&& m.population + 50 <= u32::MAX
    &&& m.total_deaths + m.population + 50 <= u32::MAX
}

/// One whole feeding turn as a function of the four pipeline draws: the
/// feeding applied, the pipeline run, and the phase set by the game-over
/// predicate — the terminal state on a lost game, the year end otherwise.
pub open spec fn apply_feeding_phase(m: StateModel, bushels: u32, y: u32, rr: u32, dp: u32, pr: u32) -> (
    StateModel,
    Seq<EventRecord>,
) {
    let mf = apply_feed(m, bushels).0;
    let ye = apply_year_events(mf, y, rr, dp, pr);
    let phase = if game_over_spec(ye.0) {
        GamePhase::GameOver
    } else {
        GamePhase::YearEnd
    };
    (StateModel { phase, ..ye.0 }, ye.1)
}

/// One whole feeding turn on a seeded stream: a function of the model
/// alone.
pub open spec fn seeded_feeding_phase(m: StateModel, bushels: u32) -> (StateModel, Seq<EventRecord>)
    recommends
        m.seed is Some,
{
    let mf = apply_feed(m, bushels).0;
    let ye = seeded_year_events(mf);
    let phase = if game_over_spec(ye.0) {
        GamePhase::GameOver
    } else {
        GamePhase::YearEnd
    };
    (StateModel { phase, ..ye.0 }, ye.1)
}

impl GameState {
    fn process_harvest(&mut self) -> (rec: EventRecord)
        requires
            old(self)@.grain + old(self)@.acres_planted * 5 <= u32::MAX,
        ensures
            1 <= final(self).harvest_yield <= 5,
            (final(self)@, rec) == apply_harvest(old(self)@, final(self).harvest_yield),
            old(self)@.seed is Some ==> final(self).harvest_yield == draw_of(old(self)@, 1, 5),
    {
        let y = draw(&mut self.rng, 1, 5);
        proof {
            assert(self.acres_planted as int * (y as int) <= self.acres_planted as int * 5)
                by (nonlinear_arith)
                requires
                    0 <= self.acres_planted as int,
                    0 <= y as int <= 5,
            ;
        }
        self.harvest_yield = y;
        self.grain_harvested = self.acres_planted * self.harvest_yield;
        self.grain = self.grain + self.grain_harvested;

        let rec = EventRecord::Harvest { yield_per_acre: y, total: self.grain_harvested };
        proof {
            assert(self@ =~= apply_harvest(old(self)@, y).0);
        }
        rec
    }

    fn process_rats(&mut self) -> (rec: EventRecord)
        ensures
            exists|dp: u32|
                10 <= dp <= 30 && (final(self)@, rec) == #[trigger] apply_rats(old(self)@, dp),
            old(self)@.seed is Some ==> (final(self)@, rec) == apply_rats(
                old(self)@,
                draw_of(old(self)@, 10, 30),
            ),
    {
        let dp = draw(&mut self.rng, 10, 30);
        proof {
            assert((self.grain as int) * (dp as int) <= 0xffff_ffff * 30 && (self.grain as int) * (
            dp as int) / 100 <= self.grain as int)
                by (nonlinear_arith)
                requires
                    0 <= self.grain as int <= 0xffff_ffff,
                    0 <= dp as int <= 30,
            ;
        }
        let eaten64: u64 = (self.grain as u64) * (dp as u64) / 100;
        self.grain_eaten_by_rats = eaten64 as u32;
        self.grain = self.grain - self.grain_eaten_by_rats;

        let rec = EventRecord::Rats { eaten: self.grain_eaten_by_rats };
        proof {
            assert(self@ =~= apply_rats(old(self)@, dp).0);
        }
        rec
    }

    fn process_immigration(&mut self) -> (rec: EventRecord)
        requires
            old(self)@.deaths_starvation == 0 ==> old(self)@.population > 0,
            old(self)@.population + 50 <= u32::MAX,
        ensures
            (final(self)@, rec) == apply_immigration(old(self)@),
    {
        if self.deaths_starvation > 0 {
            self.new_citizens = 0;
            return EventRecord::NoImmigration;
        }

        let numer: u64 = 20u64 * (self.land as u64) + (self.grain as u64);
        let denom: u64 = 100u64 * (self.population as u64);
        let base: u64 = numer / denom + 1;
        let nc: u32 = if base < 50 {
            base as u32
        } else {
            50
        };
        self.new_citizens = nc;
        self.population = self.population + nc;

        EventRecord::Immigration { new_citizens: nc }
    }

    fn process_plague(&mut self) -> (rec: EventRecord)
        requires
            old(self)@.total_deaths + old(self)@.population / 2 <= u32::MAX,
        ensures
            (final(self)@, rec) == apply_plague(old(self)@),
    {
        let deaths = self.population / 2;
        self.deaths_plague = deaths;
        self.population = self.population - deaths;
        self.total_deaths = self.total_deaths + deaths;

        EventRecord::Plague { deaths }
    }

    /// Runs the pipeline once, in its fixed order, consuming the fixed
    /// sequence of draws, and returns the ordered outcome records.
    pub fn process_year_events(&mut self) -> (records: Vec<EventRecord>)
        requires
            year_events_admissible(old(self)@),
        ensures
            exists|y: u32, rr: u32, dp: u32, pr: u32|
                1 <= y <= 5 && rr <= 99 && 10 <= dp <= 30 && pr <= 99 && (final(self)@, records@)
                    == #[trigger] apply_year_events(old(self)@, y, rr, dp, pr),
            old(self)@.seed is Some ==> (final(self)@, records@) == seeded_year_events(old(self)@),
    {
        let ghost m0 = self@;
        let mut records: Vec<EventRecord> = Vec::new();

        // Harvest
        let rec_h = self.process_harvest();
        let y_wit: u32 = self.harvest_yield;
        let ghost mh = self@;
        records.push(rec_h);

        // Vermin (40% chance)
        let roll_rats = draw(&mut self.rng, 0, 99);
        let ghost m1 = self@;
        proof {
            assert(m1 =~= push_draw(mh, 0, 99));
        }
        let ghost mut dp_wit: u32 = 10u32;
        if roll_rats < 40 {
            let ghost mp = self@;
            let rec_r = self.process_rats();
            proof {
                dp_wit = choose|dp: u32|
                    10 <= dp <= 30 && (self@, rec_r) == #[trigger] apply_rats(mp, dp);
            }
            records.push(rec_r);
        }
        let ghost m2 = self@;

        // Migration
        let rec_i = self.process_immigration();
        let ghost mi = self@;
        records.push(rec_i);

        // Epidemic (15% chance)
        let roll_plague = draw(&mut self.rng, 0, 99);
        let ghost m3 = self@;
        proof {
            assert(m3 =~= push_draw(mi, 0, 99));
        }
        if roll_plague < 15 {
            let rec_p = self.process_plague();
            records.push(rec_p);
        }

        proof {
            let ye = apply_year_events(m0, y_wit, roll_rats, dp_wit, roll_plague);
            assert(records@ =~= ye.1);
            assert(self@ == ye.0);
            if m0.seed is Some {
                let yes = seeded_year_events(m0);
                assert(records@ =~= yes.1);
                assert(self@ == yes.0);
            }
        }
        records
    }

    /// One whole feeding turn: the terminal action of a year. On success the
    /// event pipeline runs at once and the game-over predicate picks the
    /// next phase; on a rejection nothing changes and no records are made.
    pub fn submit_feeding(&mut self, bushels: u32) -> (out: (ActionResult, Vec<EventRecord>))
        requires
            old(self)@.phase is Feeding,
            old(self)@.population > 0,
            old(self)@.grain + old(self)@.acres_planted * 5 <= u32::MAX,
            old(self)@.population + 50 <= u32::MAX,
            old(self)@.total_deaths + old(self)@.population + 50 <= u32::MAX,
        ensures
            bushels as int > old(self)@.grain ==> out.0 is InsufficientGrain && final(self)@ == old(
                self,
            )@ && out.1@ == Seq::<EventRecord>::empty(),
            bushels as int <= old(self)@.grain ==> out.0 is Success && exists|
                y: u32,
                rr: u32,
                dp: u32,
                pr: u32,
            |
                1 <= y <= 5 && rr <= 99 && 10 <= dp <= 30 && pr <= 99 && (final(self)@, out.1@)
                    == #[trigger] apply_feeding_phase(old(self)@, bushels, y, rr, dp, pr),
            bushels as int <= old(self)@.grain && old(self)@.seed is Some ==> (
                final(self)@,
                out.1@,
            ) == seeded_feeding_phase(old(self)@, bushels),
    {
        let r = self.execute_action(GameAction::FeedPopulation(bushels));
        if !matches!(r, ActionResult::Success) {
            return (r, Vec::new());
        }

        let ghost mf = self@;
        let records = self.process_year_events();
        let ghost me = self@;

        if self.is_game_over() {
            self.current_phase = GamePhase::GameOver;
        } else {
            self.current_phase = GamePhase::YearEnd;
        }

        proof {
            let (y, rr, dp, pr): (u32, u32, u32, u32) = choose|
                y: u32,
                rr: u32,
                dp: u32,
                pr: u32,
            |
                1 <= y <= 5 && rr <= 99 && 10 <= dp <= 30 && pr <= 99 && (me, records@)
                    == #[trigger] apply_year_events(mf, y, rr, dp, pr);
            let fp = apply_feeding_phase(old(self)@, bushels, y, rr, dp, pr);
            assert(self@ =~= fp.0);
            if old(self)@.seed is Some {
                let sp = seeded_feeding_phase(old(self)@, bushels);
                assert(self@ =~= sp.0);
            }
        }
        (r, records)
    }
}

/// Reproducibility: the kernel is a function of the model alone. Two games
/// that agree on every counter, the phase, the seed and the bounds of the
/// draws made so far — whatever the hidden bytes of their random streams —
/// agree on what any action does, and, on a seeded stream, on everything a
/// whole year of events produces, records and all.
pub proof fn lemma_seeded_kernel_deterministic(
    a: GameState,
    b: GameState,
    action: GameAction,
    bushels: u32,
)
    requires
        a@ == b@,
    ensures
        apply_action(a@, action) == apply_action(b@, action),
        a@.seed is Some ==> seeded_year_events(a@) == seeded_year_events(b@),
        a@.seed is Some ==> seeded_feeding_phase(a@, bushels) == seeded_feeding_phase(b@, bushels),
{
}

} // verus!
