use x402_escrow::context::{InitReputation, UpdateReputation};
use x402_escrow::reputation::{
    calculate_dispute_cost, calculate_reputation_score, classify_outcome, init_reputation,
    update_reputation, DisputeOutcome, INITIAL_REPUTATION_SCORE,
};
use x402_escrow::state::{Address, EntityReputation, EntityType, BASE_DISPUTE_COST};

fn entity() -> Address {
    Address { bytes: [7u8; 32] }
}

fn blank() -> EntityReputation {
    EntityReputation {
        entity: entity(),
        entity_type: EntityType::Agent,
        total_transactions: 0,
        disputes_filed: 0,
        disputes_won: 0,
        disputes_partial: 0,
        disputes_lost: 0,
        average_quality_received: 0,
        reputation_score: 500,
        created_at: 0,
        last_updated: 0,
        bump: 0,
    }
}

fn with_counters(total: u64, filed: u64, won: u64, average: u8) -> EntityReputation {
    EntityReputation {
        total_transactions: total,
        disputes_filed: filed,
        disputes_won: won,
        average_quality_received: average,
        ..blank()
    }
}

#[test]
fn score_without_transactions_is_500() {
    assert_eq!(calculate_reputation_score(&blank()), 500);
    assert_eq!(calculate_reputation_score(&with_counters(0, 9, 9, 100)), 500);
    assert_eq!(INITIAL_REPUTATION_SCORE, 500);
}

#[test]
fn score_without_disputes_counts_150_for_them() {
    // 10 * 5 + 150 + 80 * 2
    assert_eq!(calculate_reputation_score(&with_counters(10, 0, 0, 80)), 360);
    // 1 * 5 + 150 + 0
    assert_eq!(calculate_reputation_score(&with_counters(1, 0, 0, 0)), 155);
    // won without filed still counts as no dispute
    assert_eq!(calculate_reputation_score(&with_counters(1, 0, 5, 0)), 155);
}

#[test]
fn score_adds_the_three_components() {
    // 500 + 75 * 3 + 200
    assert_eq!(calculate_reputation_score(&with_counters(200, 4, 3, 100)), 925);
    // 20 * 5 + 33 * 3 + 50 * 2
    assert_eq!(calculate_reputation_score(&with_counters(20, 3, 1, 50)), 299);
    // 100 * 5 + 0 + 0
    assert_eq!(calculate_reputation_score(&with_counters(100, 5, 0, 0)), 500);
}

#[test]
fn score_is_capped_at_1000() {
    assert_eq!(calculate_reputation_score(&with_counters(100, 2, 2, 100)), 1000);
    assert_eq!(calculate_reputation_score(&with_counters(5000, 1, 1, 100)), 1000);
}

#[test]
fn score_components_are_capped() {
    // more won than filed: the dispute component stays at 300
    assert_eq!(calculate_reputation_score(&with_counters(1, 1, 5, 0)), 305);
    // an average above 100: the quality component stays at 200
    assert_eq!(calculate_reputation_score(&with_counters(1, 1, 0, 255)), 205);
    // more than 100 transactions: the transaction component stays at 500
    assert_eq!(calculate_reputation_score(&with_counters(101, 1, 0, 0)), 500);
}

#[test]
fn score_stays_in_range_for_extreme_counters() {
    let extremes: [u64; 5] = [0, 1, 100, u64::MAX / 100 + 1, u64::MAX];
    for total in extremes {
        for filed in extremes {
            for won in extremes {
                for average in [0u8, 1, 100, 128, 255] {
                    let score =
                        calculate_reputation_score(&with_counters(total, filed, won, average));
                    assert!(score <= 1000);
                    if total == 0 {
                        assert_eq!(score, 500);
                    }
                }
            }
        }
    }
    assert_eq!(
        calculate_reputation_score(&with_counters(u64::MAX, u64::MAX, u64::MAX, 255)),
        1000
    );
    // u64::MAX * 100 / 1 is far above 100 percent
    assert_eq!(calculate_reputation_score(&with_counters(1, 1, u64::MAX, 0)), 305);
}

#[test]
fn dispute_cost_without_transactions_is_the_base() {
    assert_eq!(calculate_dispute_cost(&blank()), 1_000_000);
    assert_eq!(calculate_dispute_cost(&with_counters(0, 50, 0, 0)), BASE_DISPUTE_COST);
}

#[test]
fn dispute_cost_by_tier() {
    let cost = |filed: u64| calculate_dispute_cost(&with_counters(100, filed, 0, 0));
    assert_eq!(cost(0), 1_000_000);
    assert_eq!(cost(20), 1_000_000);
    assert_eq!(cost(21), 2_000_000);
    assert_eq!(cost(40), 2_000_000);
    assert_eq!(cost(41), 5_000_000);
    assert_eq!(cost(60), 5_000_000);
    assert_eq!(cost(61), 10_000_000);
    assert_eq!(cost(100), 10_000_000);
    assert_eq!(cost(1_000), 10_000_000);
}

#[test]
fn dispute_cost_rate_rounds_down() {
    // 2 * 100 / 3 = 66
    assert_eq!(calculate_dispute_cost(&with_counters(3, 2, 0, 0)), 10_000_000);
    // 1 * 100 / 3 = 33
    assert_eq!(calculate_dispute_cost(&with_counters(3, 1, 0, 0)), 2_000_000);
    // 41 * 100 / 200 = 20
    assert_eq!(calculate_dispute_cost(&with_counters(200, 41, 0, 0)), 1_000_000);
    // 42 * 100 / 200 = 21
    assert_eq!(calculate_dispute_cost(&with_counters(200, 42, 0, 0)), 2_000_000);
}

#[test]
fn dispute_cost_never_falls_as_the_rate_rises() {
    let mut last = 0u64;
    for filed in 0..=300u64 {
        let cost = calculate_dispute_cost(&with_counters(100, filed, 0, 0));
        assert!(cost >= last);
        last = cost;
    }
    assert_eq!(last, 10_000_000);
}

#[test]
fn dispute_cost_for_extreme_counters() {
    assert_eq!(calculate_dispute_cost(&with_counters(1, u64::MAX, 0, 0)), 10_000_000);
    assert_eq!(calculate_dispute_cost(&with_counters(u64::MAX, u64::MAX, 0, 0)), 10_000_000);
    assert_eq!(calculate_dispute_cost(&with_counters(u64::MAX, 1, 0, 0)), 1_000_000);
}

#[test]
fn outcome_thresholds() {
    assert_eq!(classify_outcome(100), DisputeOutcome::Won);
    assert_eq!(classify_outcome(75), DisputeOutcome::Won);
    assert_eq!(classify_outcome(74), DisputeOutcome::Partial);
    assert_eq!(classify_outcome(25), DisputeOutcome::Partial);
    assert_eq!(classify_outcome(24), DisputeOutcome::Lost);
    assert_eq!(classify_outcome(0), DisputeOutcome::Lost);
}

#[test]
fn init_reputation_starts_at_500() {
    let mut ctx = InitReputation {
        reputation: with_counters(9, 9, 9, 9),
        entity: Address { bytes: [3u8; 32] },
        bump: 254,
    };
    assert_eq!(init_reputation(&mut ctx, 1_700_000_000), Ok(()));
    assert_eq!(
        ctx.reputation,
        EntityReputation {
            entity: Address { bytes: [3u8; 32] },
            entity_type: EntityType::Agent,
            total_transactions: 0,
            disputes_filed: 0,
            disputes_won: 0,
            disputes_partial: 0,
            disputes_lost: 0,
            average_quality_received: 0,
            reputation_score: 500,
            created_at: 1_700_000_000,
            last_updated: 1_700_000_000,
            bump: 254,
        }
    );
    assert_eq!(ctx.entity, Address { bytes: [3u8; 32] });
    assert_eq!(ctx.bump, 254);
}

#[test]
fn record_outcome_carries_the_mean_on() {
    let mut reputation = blank();
    reputation.record_outcome(40, 60, 10);
    assert_eq!(reputation.total_transactions, 1);
    assert_eq!(reputation.average_quality_received, 40);
    reputation.record_outcome(70, 60, 11);
    // (40 * 1 + 70) / 2
    assert_eq!(reputation.average_quality_received, 55);
    reputation.record_outcome(0, 60, 12);
    // (55 * 2 + 0) / 3
    assert_eq!(reputation.average_quality_received, 36);
    assert_eq!(reputation.total_transactions, 3);
    assert_eq!(reputation.disputes_partial, 3);
    assert_eq!(reputation.last_updated, 12);
    assert_eq!(reputation.created_at, 0);
}

#[test]
fn record_outcome_counts_the_outcome() {
    let mut reputation = blank();
    reputation.record_outcome(50, 75, 1);
    assert_eq!(
        (reputation.disputes_won, reputation.disputes_partial, reputation.disputes_lost),
        (1, 0, 0)
    );
    reputation.record_outcome(50, 74, 2);
    assert_eq!(
        (reputation.disputes_won, reputation.disputes_partial, reputation.disputes_lost),
        (1, 1, 0)
    );
    reputation.record_outcome(50, 25, 3);
    assert_eq!(
        (reputation.disputes_won, reputation.disputes_partial, reputation.disputes_lost),
        (1, 2, 0)
    );
    reputation.record_outcome(50, 24, 4);
    assert_eq!(
        (reputation.disputes_won, reputation.disputes_partial, reputation.disputes_lost),
        (1, 2, 1)
    );
    assert_eq!(reputation.disputes_filed, 0);
}

#[test]
fn record_outcome_computes_the_score_afresh() {
    let mut reputation = with_counters(9, 2, 0, 90);
    reputation.reputation_score = 1;
    reputation.record_outcome(100, 80, 5);
    // the tenth transaction, mean (90 * 9 + 100) / 10 = 91, one of two disputes won
    assert_eq!(reputation.total_transactions, 10);
    assert_eq!(reputation.average_quality_received, 91);
    assert_eq!(reputation.disputes_won, 1);
    // 10 * 5 + 50 * 3 + 91 * 2
    assert_eq!(reputation.reputation_score, 382);
    assert_eq!(reputation.reputation_score, calculate_reputation_score(&reputation));
}

#[test]
fn record_outcome_saturates_the_counters() {
    let mut reputation = with_counters(u64::MAX, 0, u64::MAX, 100);
    reputation.record_outcome(100, 100, 1);
    assert_eq!(reputation.total_transactions, u64::MAX);
    assert_eq!(reputation.disputes_won, u64::MAX);
    assert_eq!(reputation.average_quality_received, 100);
    assert!(reputation.reputation_score <= 1000);
    let mut low = with_counters(u64::MAX, 0, 0, 255);
    low.record_outcome(0, 0, 1);
    // (255 * (2^64 - 2) + 0) / (2^64 - 1) = 254
    assert_eq!(low.average_quality_received, 254);
}

#[test]
fn record_dispute_filed_counts_one() {
    let mut reputation = with_counters(4, 1, 0, 0);
    let before = reputation;
    reputation.record_dispute_filed();
    assert_eq!(reputation, EntityReputation { disputes_filed: 2, ..before });
    let mut full = with_counters(4, u64::MAX, 0, 0);
    full.record_dispute_filed();
    assert_eq!(full.disputes_filed, u64::MAX);
}

#[test]
fn update_reputation_enters_one_resolution() {
    let mut ctx = UpdateReputation { reputation: blank() };
    assert_eq!(update_reputation(&mut ctx, 40, 60, 99), Ok(()));
    assert_eq!(
        ctx.reputation,
        EntityReputation {
            total_transactions: 1,
            disputes_partial: 1,
            average_quality_received: 40,
            // 1 * 5 + 150 + 40 * 2
            reputation_score: 235,
            last_updated: 99,
            ..blank()
        }
    );
}
