//! The end-of-game score: a pure function of the reign's terminal counters.
//!
//! The two ratios the rating is judged by are kept as exact fractions, so
//! the threshold comparisons are exact integer arithmetic; callers that want
//! a decimal divide the fraction out themselves.

use vstd::prelude::*;

verus! {

/// The categorical judgment of the reign, most severe first.
#[derive(Debug, Clone, PartialEq, Eq, Structural)]
pub enum PerformanceRating {
    Terrible,
    Poor,
    Fair,
    Good,
    Excellent,
}

/// The final report: the death toll, the yearly death rate as a percentage
/// (the fraction `death_rate_num / death_rate_den`), the acres per surviving
/// subject (the fraction `acres_num / acres_den`, zero when nobody
/// survived), the population change, and the rating.
#[derive(Debug, Clone)]
pub struct Score {
    pub total_deaths: u32,
    pub death_rate_num: u64,
    pub death_rate_den: u64,
    pub acres_num: u64,
    pub acres_den: u64,
    pub population_growth: i32,
    pub rating: PerformanceRating,
}

/// Whether the death rate — `total_deaths` of `initial_population` subjects
/// per year over ten years, as a percentage — exceeds `threshold`.
pub open spec fn death_rate_exceeds(total_deaths: int, initial_population: int, threshold: int) -> bool {
    total_deaths * 10 > threshold * initial_population
}

/// Whether the acres per surviving subject fall below `threshold`; with no
/// survivors the ratio counts as zero, below every threshold used.
pub open spec fn acres_below(final_land: int, final_population: int, threshold: int) -> bool {
    final_population == 0 || final_land < threshold * final_population
}

/// The cascading rating thresholds, first match wins, most severe first.
pub open spec fn rating_spec(
    initial_population: int,
    final_population: int,
    total_deaths: int,
    final_land: int,
) -> PerformanceRating {
    if death_rate_exceeds(total_deaths, initial_population, 33) || acres_below(
        final_land,
        final_population,
        7,
    ) {
        PerformanceRating::Terrible
    } else if death_rate_exceeds(total_deaths, initial_population, 20) || acres_below(
        final_land,
        final_population,
        9,
    ) {
        PerformanceRating::Poor
    } else if death_rate_exceeds(total_deaths, initial_population, 10) || acres_below(
        final_land,
        final_population,
        10,
    ) {
        PerformanceRating::Fair
    } else if death_rate_exceeds(total_deaths, initial_population, 3) || acres_below(
        final_land,
        final_population,
        12,
    ) {
        PerformanceRating::Good
    } else {
        PerformanceRating::Excellent
    }
}

/// Computes the final report from the four terminal counters. The death
/// rate is `total_deaths / (initial_population × 10) × 100`, kept exactly
/// as the fraction `total_deaths × 10 / initial_population`.
pub fn evaluate_performance(
    initial_population: u32,
    final_population: u32,
    total_deaths: u32,
    final_land: u32,
) -> (s: Score)
    requires
        initial_population > 0,
        initial_population <= i32::MAX,
        final_population <= i32::MAX,
    ensures
        s.total_deaths == total_deaths,
        s.death_rate_num == total_deaths as int * 10,
        s.death_rate_den == initial_population as int,
        s.acres_num == if final_population > 0 {
            final_land as int
        } else {
            0
        },
        s.acres_den == if final_population > 0 {
            final_population as int
        } else {
            1
        },
        s.population_growth == final_population as int - initial_population as int,
        s.rating == rating_spec(
            initial_population as int,
            final_population as int,
            total_deaths as int,
            final_land as int,
        ),
{
    let death_rate_num: u64 = (total_deaths as u64) * 10;
    let death_rate_den: u64 = initial_population as u64;

    let (acres_num, acres_den): (u64, u64) = if final_population > 0 {
        (final_land as u64, final_population as u64)
    } else {
        (0, 1)
    };

    let population_growth: i32 = (final_population as i32) - (initial_population as i32);

    let rating = if death_rate_num > 33 * death_rate_den || acres_num < 7 * acres_den {
        PerformanceRating::Terrible
    } else if death_rate_num > 20 * death_rate_den || acres_num < 9 * acres_den {
        PerformanceRating::Poor
    } else if death_rate_num > 10 * death_rate_den || acres_num < 10 * acres_den {
        PerformanceRating::Fair
    } else if death_rate_num > 3 * death_rate_den || acres_num < 12 * acres_den {
        PerformanceRating::Good
    } else {
        PerformanceRating::Excellent
    };

    Score {
        total_deaths,
        death_rate_num,
        death_rate_den,
        acres_num,
        acres_den,
        population_growth,
        rating,
    }
}

/// The narrative verdict each rating carries.
pub open spec fn rating_text(r: PerformanceRating) -> Seq<char> {
    match r {
        PerformanceRating::Terrible => "Due to your extreme mismanagement, you have been impeached and thrown out of office! The people are rallying to lynch you!"@,
        PerformanceRating::Poor => "Your poor leadership has left the city in bad shape. The people have lost confidence in your rule."@,
        PerformanceRating::Fair => "Your performance was adequate. The city survived, but there is much room for improvement."@,
        PerformanceRating::Good => "You have done well! The city has prospered under your rule, and the people respect your leadership."@,
        PerformanceRating::Excellent => "Fantastic! You are truly a great leader! The city has thrived beyond all expectations. Songs will be sung of your reign for generations!"@,
    }
}

impl Score {
    /// The narrative verdict for this report's rating.
    pub fn get_rating_message(&self) -> (m: &'static str)
        ensures
            m@ == rating_text(self.rating),
    {
        match self.rating {
            PerformanceRating::Terrible => "Due to your extreme mismanagement, you have been impeached and thrown out of office! The people are rallying to lynch you!",
            PerformanceRating::Poor => "Your poor leadership has left the city in bad shape. The people have lost confidence in your rule.",
            PerformanceRating::Fair => "Your performance was adequate. The city survived, but there is much room for improvement.",
            PerformanceRating::Good => "You have done well! The city has prospered under your rule, and the people respect your leadership.",
            PerformanceRating::Excellent => "Fantastic! You are truly a great leader! The city has thrived beyond all expectations. Songs will be sung of your reign for generations!",
        }
    }
}

} // verus!
