use encounter_store::cast_quality::cast_quality;
use encounter_store::identity::{create_identity_stats, resolve_identity_shape, IdentityShape};
use encounter_store::models::{SkillCast, SkillHit};
use encounter_store::stagger::create_stagger_stats;
use encounter_store::stats::{dps, duration_seconds, generate_intervals, rolling_dps_average};
use encounter_store::text::{hundredths_to_string, i64_to_string, round_div_half_up, u64_to_string};

#[test]
fn duration_and_dps_formulas() {
    // totalDamage=100, d=500ms: one billed second, dps 100.
    assert_eq!(duration_seconds(500), 1);
    assert_eq!(dps(100, duration_seconds(500)), 100);
    // totalDamage=1000, d=3000ms: three seconds, truncating division.
    assert_eq!(duration_seconds(3000), 3);
    assert_eq!(dps(1000, duration_seconds(3000)), 333);
    // A zero-length fight still bills one second.
    assert_eq!(duration_seconds(0), 1);
}

#[test]
fn interval_grid_spans_the_fight() {
    assert_eq!(generate_intervals(100, 100), Vec::<i64>::new());
    assert_eq!(generate_intervals(200, 100), Vec::<i64>::new());
    assert_eq!(generate_intervals(0, 2500), vec![0, 1000, 2000]);
    assert_eq!(generate_intervals(1000, 4000), vec![0, 1000, 2000, 3000]);
}

#[test]
fn rolling_average_sums_centered_window() {
    let fight_start = 10_000;
    let log = vec![
        (10_000, 50),
        (12_000, 30),
        (16_000, 100),
        (30_000, 40),
    ];
    let intervals = vec![0, 10_000, 20_000];
    let rolling = rolling_dps_average(&log, &intervals, fight_start);
    // Window 5000..15000 holds 50+30; window 15000..25000 holds 100;
    // window 25000..35000 holds 40. Each divides by the ten-second span.
    assert_eq!(rolling, vec![8, 10, 4]);
}

#[test]
fn stagger_statistics_from_intervals() {
    let log = vec![(1, 500u64), (2, 1_000u64)];
    let mut intervals = vec![(10, 100)];
    let stats = create_stagger_stats(&log, 0, 0, 100, 0, &mut intervals)
        .expect("non-empty log with positive phase time yields statistics");
    // dealt=100, time=10, max=100: average 10.00%, 6.00 staggers/min.
    assert_eq!(stats.average_hundredths, 1000);
    assert_eq!(stats.staggers_per_min_hundredths, 600);
    assert_eq!(stats.log, log);
}

#[test]
fn stagger_carry_over_appends_unfinished_phase() {
    let log = vec![(1, 500u64)];
    let mut intervals: Vec<(i32, i32)> = Vec::new();
    // Carry-over 50 differs from the maximum 100; the fight ran 20
    // seconds past the phase start.
    let stats = create_stagger_stats(&log, 20_000, 0, 100, 50, &mut intervals).unwrap();
    assert_eq!(intervals, vec![(20, 50)]);
    // dealt=50, time=20, max=100: average 2.50%.
    assert_eq!(stats.average_hundredths, 250);
}

#[test]
fn stagger_absent_for_empty_log_or_zero_time() {
    let mut intervals = vec![(10, 100)];
    assert!(create_stagger_stats(&Vec::new(), 0, 0, 100, 0, &mut intervals).is_none());
    let mut no_time: Vec<(i32, i32)> = Vec::new();
    let log = vec![(1, 500u64)];
    assert!(create_stagger_stats(&log, 0, 0, 100, 0, &mut no_time).is_none());
}

#[test]
fn identity_shapes_resolve_from_class() {
    assert_eq!(
        resolve_identity_shape("Arcanist"),
        IdentityShape::TwoCard { neutral_card: 0 }
    );
    assert_eq!(
        resolve_identity_shape("Bard"),
        IdentityShape::ThreeBubble { max_gauge: 10000 }
    );
    assert_eq!(
        resolve_identity_shape("Summoner"),
        IdentityShape::SingleGauge { max_gauge: 7000 }
    );
    assert_eq!(
        resolve_identity_shape("Souleater"),
        IdentityShape::SingleGauge { max_gauge: 3000 }
    );
    assert_eq!(
        resolve_identity_shape("Berserker"),
        IdentityShape::SingleGauge { max_gauge: 10000 }
    );
}

#[test]
fn single_gauge_identity_caps_and_averages() {
    let shape = IdentityShape::SingleGauge { max_gauge: 10000 };
    let samples = vec![
        (1_000, (0, 0, 0)),
        (2_000, (5_000, 0, 0)),
        (3_000, (10_000, 0, 0)),
    ];
    let stats = create_identity_stats(&samples, shape, 1_000, 10);
    assert_eq!(
        stats.log,
        vec![(0, 0), (1_000, 5_000), (2_000, 10_000)]
    );
    // Total gain 10000 over 10 seconds against a 10000 gauge: 10.00%/s.
    assert_eq!(stats.average_hundredths, 1000);
    assert!(stats.card_draws.is_none());
}

#[test]
fn identity_resets_do_not_count_as_gain() {
    let shape = IdentityShape::SingleGauge { max_gauge: 10000 };
    let samples = vec![
        (1_000, (8_000, 0, 0)),
        (2_000, (2_000, 0, 0)),
        (3_000, (4_000, 0, 0)),
        (3_000, (9_000, 0, 0)),
    ];
    let stats = create_identity_stats(&samples, shape, 1_000, 10);
    // Only the 2000 -> 4000 rise counts: the first step falls (a reset)
    // and the last does not move time forward.
    assert_eq!(stats.average_hundredths, 200);
}

#[test]
fn card_draws_skip_repeats_and_neutral() {
    let shape = IdentityShape::TwoCard { neutral_card: 0 };
    let samples = vec![
        (1_000, (0, 3, 0)),
        (2_000, (0, 3, 5)),
        (3_000, (0, 0, 5)),
        (4_000, (0, 7, 5)),
    ];
    let stats = create_identity_stats(&samples, shape, 1_000, 10);
    // Slot one: 3 repeats, then falls to neutral (not counted), then 7.
    // Slot two: 5 appears once and stays.
    assert_eq!(stats.card_draws, Some(vec![5, 7]));
}

#[test]
fn three_bubble_identity_counts_bubbles() {
    let shape = IdentityShape::ThreeBubble { max_gauge: 10000 };
    let samples = vec![(1_000, (0, 0, 0)), (2_000, (5_000, 2, 0))];
    let stats = create_identity_stats(&samples, shape, 1_000, 10);
    // 5000 gauge plus two full bubbles reads 250.00%.
    assert_eq!(stats.log[1].1, 25_000);
}

#[test]
fn cast_quality_filters_glancing_hits() {
    let casts = vec![
        SkillCast {
            timestamp: 1,
            hits: vec![
                SkillHit { damage: 1_000, crit: true },
                SkillHit { damage: 10, crit: false },
            ],
        },
        SkillCast {
            timestamp: 2,
            hits: vec![SkillHit { damage: 990, crit: false }],
        },
    ];
    let (adjusted_crit, max_cast) = cast_quality(&casts);
    // Average damage per cast 1000, filter 50: the 10-damage hit drops
    // out, leaving one crit of two counted hits.
    assert_eq!(adjusted_crit, Some(5_000));
    assert_eq!(max_cast, 1_010);
}

#[test]
fn cast_quality_absent_without_counted_hits() {
    assert_eq!(cast_quality(&Vec::new()), (None, 0));
    let casts = vec![SkillCast {
        timestamp: 1,
        hits: Vec::new(),
    }];
    assert_eq!(cast_quality(&casts), (None, 0));
}

#[test]
fn decimal_text_forms() {
    assert_eq!(u64_to_string(0), "0");
    assert_eq!(u64_to_string(90_553), "90553");
    assert_eq!(i64_to_string(-42), "-42");
    assert_eq!(i64_to_string(i64::MIN), "-9223372036854775808");
    assert_eq!(hundredths_to_string(1234), "12.34");
    assert_eq!(hundredths_to_string(5), "0.05");
    assert_eq!(round_div_half_up(5, 2), 3);
    assert_eq!(round_div_half_up(4, 3), 1);
    assert_eq!(round_div_half_up(5, 3), 2);
}
