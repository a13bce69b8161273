use hamurabi::{evaluate_performance, PerformanceRating};

#[test]
fn score_of_a_gentle_reign_is_poor_by_acreage() {
    let score = evaluate_performance(100, 105, 20, 900);
    // Death rate: 20 of 1000 subject-years, exactly 2 percent.
    assert_eq!(
        score.death_rate_num as f32 / score.death_rate_den as f32,
        2.0
    );
    // Acres per person: 900 / 105, about 8.571 — under the 9-acre bound.
    let acres = score.acres_num as f32 / score.acres_den as f32;
    assert!((acres - 8.571_428_5).abs() < 1e-4);
    assert_eq!(score.population_growth, 5);
    assert_eq!(score.total_deaths, 20);
    assert_eq!(score.rating, PerformanceRating::Poor);
}

#[test]
fn score_rating_thresholds_cascade() {
    // Death rate 34 percent: terrible however much land is left.
    assert_eq!(
        evaluate_performance(100, 100, 340, 100_000).rating,
        PerformanceRating::Terrible
    );
    // 6.9 acres per person: terrible however few died.
    assert_eq!(
        evaluate_performance(100, 100, 0, 690).rating,
        PerformanceRating::Terrible
    );
    // Death rate 2 percent but only 9.5 acres per person: fair.
    assert_eq!(
        evaluate_performance(100, 100, 20, 950).rating,
        PerformanceRating::Fair
    );
    // No deaths, 11 acres per person: good.
    assert_eq!(
        evaluate_performance(100, 100, 0, 1100).rating,
        PerformanceRating::Good
    );
    // No deaths, 12 acres per person: excellent.
    assert_eq!(
        evaluate_performance(100, 100, 0, 1200).rating,
        PerformanceRating::Excellent
    );
    // Death rate exactly 3 percent leaves good; just over it does not.
    assert_eq!(
        evaluate_performance(100, 100, 30, 1200).rating,
        PerformanceRating::Excellent
    );
    assert_eq!(
        evaluate_performance(100, 100, 31, 1200).rating,
        PerformanceRating::Good
    );
}

#[test]
fn score_with_no_survivors_is_terrible() {
    let score = evaluate_performance(100, 0, 1000, 1000);
    assert_eq!(score.acres_num, 0);
    assert_eq!(score.acres_den, 1);
    assert_eq!(score.population_growth, -100);
    assert_eq!(score.rating, PerformanceRating::Terrible);
}

#[test]
fn rating_messages_match_their_ratings() {
    let poor = evaluate_performance(100, 105, 20, 900);
    assert_eq!(
        poor.get_rating_message(),
        "Your poor leadership has left the city in bad shape. The people have lost confidence in your rule."
    );
    let excellent = evaluate_performance(100, 100, 0, 1200);
    assert!(excellent.get_rating_message().contains("Fantastic!"));
    let terrible = evaluate_performance(100, 0, 1000, 1000);
    assert!(terrible.get_rating_message().contains("impeached"));
    let fair = evaluate_performance(100, 100, 20, 950);
    assert!(fair.get_rating_message().contains("adequate"));
    let good = evaluate_performance(100, 100, 0, 1100);
    assert!(good.get_rating_message().contains("prospered"));
}
