//! Fee-estimator behaviour: level selection, empty samples, percentiles,
//! chunking and clamping.

use tx_sender::priority_fee::{
    apply_fee_bounds, calculate_percentiles, get_priority_fee_estimate,
    get_priority_fee_levels_estimate, plan_fee_query, resolve_priority_fee, sorted_fees_asc,
    sorted_observations_desc, FeeObservation, FeeQueryPlan, PriorityFeeEstimates,
    PriorityFeeLevel,
};
use tx_sender::SmartTxPriorityFeeConfig;

fn sample_levels() -> PriorityFeeEstimates {
    PriorityFeeEstimates { low: 10, medium: 20, high: 30, very_high: 40, ultimate: 50 }
}

fn obs(slot: u64, fee: u64) -> FeeObservation {
    FeeObservation { slot, prioritization_fee: fee }
}

#[test]
fn no_fee_level_estimates_to_zero() {
    assert_eq!(get_priority_fee_estimate(&sample_levels(), PriorityFeeLevel::NoFee), 0);
}

#[test]
fn custom_level_returns_its_amount() {
    assert_eq!(get_priority_fee_estimate(&sample_levels(), PriorityFeeLevel::Custom(1234)), 1234);
}

#[test]
fn named_levels_pick_their_estimates() {
    let levels = sample_levels();
    assert_eq!(get_priority_fee_estimate(&levels, PriorityFeeLevel::Low), 10);
    assert_eq!(get_priority_fee_estimate(&levels, PriorityFeeLevel::Medium), 20);
    assert_eq!(get_priority_fee_estimate(&levels, PriorityFeeLevel::High), 30);
    assert_eq!(get_priority_fee_estimate(&levels, PriorityFeeLevel::VeryHigh), 40);
    assert_eq!(get_priority_fee_estimate(&levels, PriorityFeeLevel::Ultimate), 50);
}

#[test]
fn no_fee_and_custom_levels_need_no_fetch() {
    let cfg = |level: PriorityFeeLevel| Some(SmartTxPriorityFeeConfig {
        fee_level: level,
        fee_min: None,
        fee_max: None,
    });
    assert_eq!(plan_fee_query(&cfg(PriorityFeeLevel::NoFee), false), FeeQueryPlan::Immediate(0));
    assert_eq!(
        plan_fee_query(&cfg(PriorityFeeLevel::Custom(77)), false),
        FeeQueryPlan::Immediate(77)
    );
    assert_eq!(plan_fee_query(&None, false), FeeQueryPlan::Immediate(0));
    // The relay path never fetches either.
    assert_eq!(plan_fee_query(&cfg(PriorityFeeLevel::Medium), true), FeeQueryPlan::Immediate(0));
    // A named level without a relay is the one case that fetches.
    assert_eq!(
        plan_fee_query(&cfg(PriorityFeeLevel::Medium), false),
        FeeQueryPlan::FetchObservations
    );
}

#[test]
fn empty_sample_estimates_every_level_to_zero() {
    let estimates = get_priority_fee_levels_estimate(&Vec::new());
    assert_eq!(estimates.low, 0);
    assert_eq!(estimates.medium, 0);
    assert_eq!(estimates.high, 0);
    assert_eq!(estimates.very_high, 0);
    assert_eq!(estimates.ultimate, 0);
}

#[test]
fn percentiles_of_ten_ascending_values() {
    // With values 1..=10 the 70th percentile index is ceil(7.0) = 7, so the
    // value is 7; the others follow the same nearest-rank rule.
    let fees: Vec<u64> = (1..=10).collect();
    let p = calculate_percentiles(&fees);
    assert_eq!(p.p70, 7);
    assert_eq!(p.p75, 8);
    assert_eq!(p.p80, 8);
    assert_eq!(p.p85, 9);
    assert_eq!(p.p95, 10);
}

#[test]
fn percentiles_sort_their_input_first() {
    let fees: Vec<u64> = vec![10, 7, 1, 9, 3, 5, 8, 2, 6, 4];
    let p = calculate_percentiles(&fees);
    assert_eq!(p.p70, 7);
    assert_eq!(p.p95, 10);
}

#[test]
fn percentile_of_single_value() {
    let p = calculate_percentiles(&vec![42]);
    assert_eq!(p.p70, 42);
    assert_eq!(p.p95, 42);
}

#[test]
fn estimates_come_from_most_recent_observations() {
    // 10 observations, one per slot, fee equal to the slot number: a single
    // chunk, percentiles as in the ascending example.
    let observations: Vec<FeeObservation> = (1..=10).map(|s| obs(s, s)).collect();
    let estimates = get_priority_fee_levels_estimate(&observations);
    assert_eq!(estimates.low, 7);
    assert_eq!(estimates.medium, 8);
    assert_eq!(estimates.high, 8);
    assert_eq!(estimates.very_high, 9);
    assert_eq!(estimates.ultimate, 10);
}

#[test]
fn estimates_reflect_the_last_considered_chunk() {
    // 160 observations: sorted by slot descending, the first chunk holds
    // slots 160..=11 and the second (and last considered) chunk holds slots
    // 10..=1 with fees 1..=10, so the estimates equal the small example's.
    let observations: Vec<FeeObservation> = (1..=160).map(|s| obs(s, s)).collect();
    let estimates = get_priority_fee_levels_estimate(&observations);
    assert_eq!(estimates.low, 7);
    assert_eq!(estimates.medium, 8);
    assert_eq!(estimates.high, 8);
    assert_eq!(estimates.very_high, 9);
    assert_eq!(estimates.ultimate, 10);
}

#[test]
fn at_most_three_chunks_are_considered() {
    // 500 observations: chunks of 150 hold slots 500..351, 350..201,
    // 200..51; the third chunk is the last considered, so the estimates
    // come from fees 51..=200 and the fourth chunk (50..1) is ignored.
    let observations: Vec<FeeObservation> = (1..=500).map(|s| obs(s, s)).collect();
    let estimates = get_priority_fee_levels_estimate(&observations);
    // Chunk values ascending are 51..=200 (n = 150): index ceil(0.70*150)
    // = 105 -> value 155, ceil(0.75*150) = 113 -> 163, 120 -> 170,
    // ceil(0.85*150) = 128 -> 178, ceil(0.95*150) = 143 -> 193.
    assert_eq!(estimates.low, 155);
    assert_eq!(estimates.medium, 163);
    assert_eq!(estimates.high, 170);
    assert_eq!(estimates.very_high, 178);
    assert_eq!(estimates.ultimate, 193);
}

#[test]
fn estimator_is_deterministic() {
    let observations: Vec<FeeObservation> = (1..=160).map(|s| obs(s, 2 * s + 1)).collect();
    let first = get_priority_fee_levels_estimate(&observations);
    let second = get_priority_fee_levels_estimate(&observations);
    assert_eq!(first, second);
}

#[test]
fn ascending_sort_sorts() {
    let sorted = sorted_fees_asc(&vec![3, 1, 2, 2, 10, 0]);
    assert_eq!(sorted, vec![0, 1, 2, 2, 3, 10]);
}

#[test]
fn slot_sort_is_descending_and_stable() {
    let sorted = sorted_observations_desc(&vec![obs(5, 1), obs(9, 2), obs(5, 3), obs(1, 4)]);
    assert_eq!(sorted[0], obs(9, 2));
    assert_eq!(sorted[1], obs(5, 1));
    assert_eq!(sorted[2], obs(5, 3));
    assert_eq!(sorted[3], obs(1, 4));
}

#[test]
fn fee_is_clamped_between_min_and_max() {
    assert_eq!(apply_fee_bounds(5, Some(10), Some(20)), 10);
    assert_eq!(apply_fee_bounds(15, Some(10), Some(20)), 15);
    assert_eq!(apply_fee_bounds(25, Some(10), Some(20)), 20);
    assert_eq!(apply_fee_bounds(5, Some(10), None), 10);
    assert_eq!(apply_fee_bounds(25, None, Some(20)), 20);
    assert_eq!(apply_fee_bounds(7, None, None), 7);
    // When the bounds cross, the upper bound is applied last and wins.
    assert_eq!(apply_fee_bounds(5, Some(30), Some(20)), 20);
}

#[test]
fn custom_fee_is_clamped_too() {
    let cfg = Some(SmartTxPriorityFeeConfig {
        fee_level: PriorityFeeLevel::Custom(5),
        fee_min: Some(10),
        fee_max: Some(20),
    });
    assert_eq!(resolve_priority_fee(&cfg, false, &sample_levels()), 10);
}

#[test]
fn relay_resolves_fee_to_zero() {
    let cfg = Some(SmartTxPriorityFeeConfig {
        fee_level: PriorityFeeLevel::Ultimate,
        fee_min: Some(10),
        fee_max: Some(20),
    });
    assert_eq!(resolve_priority_fee(&cfg, true, &sample_levels()), 0);
    assert_eq!(resolve_priority_fee(&cfg, false, &sample_levels()), 20);
}

#[test]
fn no_fee_level_skips_clamping() {
    let cfg = Some(SmartTxPriorityFeeConfig {
        fee_level: PriorityFeeLevel::NoFee,
        fee_min: Some(10),
        fee_max: Some(20),
    });
    assert_eq!(resolve_priority_fee(&cfg, false, &sample_levels()), 0);
}
