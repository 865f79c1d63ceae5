//! The reputation ledger and the cost of disputing.
//!
//! A reputation is a handful of saturating counters and two values derived
//! from them: the running mean of the quality received and a score between
//! 0 and 1000. The score is computed afresh from the counters on every update.

use vstd::prelude::*;

use crate::context::{InitReputation, UpdateReputation};
use crate::error::EscrowError;
use crate::state::{Address, EntityReputation, EntityType, BASE_DISPUTE_COST};

verus! {

/// The score of an entity that has no transactions yet.
pub const INITIAL_REPUTATION_SCORE: u16 = 500;

/// The smaller of two integers.
pub open spec fn least(a: int, b: int) -> int {
    if a <= b {
        a
    } else {
        b
    }
}

/// A counter one higher, or unchanged at its ceiling.
pub open spec fn bumped(counter: u64) -> u64 {
    if counter == u64::MAX {
        counter
    } else {
        (counter + 1) as u64
    }
}

/// Up to 500 points for transactions: 5 for each of the first 100.
pub open spec fn transaction_component(total_transactions: int) -> int {
    least(total_transactions, 100) * 5
}

/// Up to 300 points for disputes won: three per percent of the disputes
/// filed, and a neutral 150 while none was filed.
pub open spec fn dispute_component(disputes_won: int, disputes_filed: int) -> int {
    if disputes_filed == 0 {
        150
    } else {
        least(300, (disputes_won * 100 / disputes_filed) * 3)
    }
}

/// Up to 200 points for quality: two per point of the average received.
pub open spec fn quality_component(average_quality: int) -> int {
    least(200, average_quality * 2)
}

/// The reputation score that belongs to the given counters.
pub open spec fn score_of(
    total_transactions: int,
    disputes_filed: int,
    disputes_won: int,
    average_quality: int,
) -> int {
    if total_transactions == 0 {
        500
    } else {
        least(
            1000,
            transaction_component(total_transactions) + dispute_component(
                disputes_won,
                disputes_filed,
            ) + quality_component(average_quality),
        )
    }
}

/// The share of an entity's transactions that it disputed, in percent rounded
/// down; 0 while it has no transactions.
pub open spec fn dispute_rate(disputes_filed: int, total_transactions: int) -> int {
    if total_transactions == 0 {
        0
    } else {
        disputes_filed * 100 / total_transactions
    }
}

/// By how much a dispute rate multiplies the base cost of a dispute.
pub open spec fn cost_multiplier(rate: int) -> int {
    if rate <= 20 {
        1
    } else if rate <= 40 {
        2
    } else if rate <= 60 {
        5
    } else {
        10
    }
}

/// The cost of a dispute at the given dispute rate.
pub open spec fn dispute_cost_at(rate: int) -> int {
    BASE_DISPUTE_COST * cost_multiplier(rate)
}

/// The mean of `count` values, of which the earlier `count - 1` had the mean
/// `average` and the last is `value`; rounded down.
pub open spec fn running_mean(average: int, count: int, value: int) -> int {
    (average * (count - 1) + value) / count
}

/// How a resolution went for one party.
#[derive(Clone, Copy, Debug, PartialEq, Eq, Structural)]
pub enum DisputeOutcome {
    /// At least 75 percent went the party's way.
    Won,
    /// Between 25 and 74 percent went the party's way.
    Partial,
    /// Less than 25 percent went the party's way.
    Lost,
}

/// The outcome for a party of which `percentage` percent went its way.
pub open spec fn outcome_of(percentage: int) -> DisputeOutcome {
    if percentage >= 75 {
        DisputeOutcome::Won
    } else if percentage >= 25 {
        DisputeOutcome::Partial
    } else {
        DisputeOutcome::Lost
    }
}

/// The outcome for a party of which `percentage` percent went its way.
pub fn classify_outcome(percentage: u8) -> (outcome: DisputeOutcome)
    ensures
        outcome == outcome_of(percentage as int),
{
    if percentage >= 75 {
        DisputeOutcome::Won
    } else if percentage >= 25 {
        DisputeOutcome::Partial
    } else {
        DisputeOutcome::Lost
    }
}

/// A running mean never leaves the range of the values that went into it.
pub proof fn lemma_running_mean_bounded(average: int, count: int, value: int, bound: int)
    requires
        0 <= average <= bound,
        0 <= value <= bound,
        1 <= count,
    ensures
        0 <= running_mean(average, count, value) <= bound,
{
    assert(0 <= average * (count - 1) <= bound * (count - 1)) by (nonlinear_arith)
        requires
            0 <= average <= bound,
            1 <= count,
    ;
    assert(bound * (count - 1) + bound == bound * count) by (nonlinear_arith);
    let total = average * (count - 1) + value;
    assert(0 <= total / count <= bound) by (nonlinear_arith)
        requires
            0 <= total <= bound * count,
            1 <= count,
    ;
}

/// The score lies between 0 and 1000 whatever the counters hold. Without
/// transactions it is 500, and without disputes filed the dispute component
/// is the neutral 150.
pub proof fn lemma_score_within_bounds(reputation: EntityReputation)
    ensures
        0 <= reputation.score() <= 1000,
        reputation.total_transactions == 0 ==> reputation.score() == 500,
        reputation.disputes_filed == 0 ==> dispute_component(
            reputation.disputes_won as int,
            reputation.disputes_filed as int,
        ) == 150,
{
    let won = reputation.disputes_won as int;
    let filed = reputation.disputes_filed as int;
    if filed > 0 {
        assert(0 <= won * 100 / filed) by (nonlinear_arith)
            requires
                0 <= won,
                0 < filed,
        ;
    }
}

/// The counters of a reputation never fall: not when a dispute is filed,
/// and not when a resolution is entered.
pub proof fn lemma_counters_never_fall(
    reputation: EntityReputation,
    quality: u8,
    percentage: u8,
    now: i64,
)
    ensures
        ({
            let after = reputation.after_outcome(quality, percentage, now);
            &&& after.total_transactions >= reputation.total_transactions
            &&& after.disputes_filed == reputation.disputes_filed
            &&& after.disputes_won >= reputation.disputes_won
            &&& after.disputes_partial >= reputation.disputes_partial
            &&& after.disputes_lost >= reputation.disputes_lost
        }),
        ({
            let after = reputation.with_dispute_filed();
            &&& after.disputes_filed >= reputation.disputes_filed
            &&& after.total_transactions == reputation.total_transactions
            &&& after.disputes_won == reputation.disputes_won
            &&& after.disputes_partial == reputation.disputes_partial
            &&& after.disputes_lost == reputation.disputes_lost
        }),
{
}

/// The cost of a dispute never falls as the dispute rate rises, and it rises
/// strictly whenever the rate crosses from one tier into the next: past 20,
/// past 40 and past 60 percent.
pub proof fn lemma_dispute_cost_monotone(lower: EntityReputation, higher: EntityReputation)
    requires
        lower.dispute_rate() <= higher.dispute_rate(),
    ensures
        lower.dispute_cost() <= higher.dispute_cost(),
        lower.dispute_rate() <= 20 < higher.dispute_rate() ==> lower.dispute_cost()
            < higher.dispute_cost(),
        lower.dispute_rate() <= 40 < higher.dispute_rate() ==> lower.dispute_cost()
            < higher.dispute_cost(),
        lower.dispute_rate() <= 60 < higher.dispute_rate() ==> lower.dispute_cost()
            < higher.dispute_cost(),
{
}

impl EntityReputation {
    /// What is true of every reputation the engine has written: the score is
    /// at most 1000 and the average quality at most 100.
    pub open spec fn wf(&self) -> bool {
        &&& self.reputation_score <= 1000
        &&& self.average_quality_received <= 100
    }

    /// The score that belongs to this record's counters.
    pub open spec fn score(&self) -> int {
        score_of(
            self.total_transactions as int,
            self.disputes_filed as int,
            self.disputes_won as int,
            self.average_quality_received as int,
        )
    }

    /// Whether the stored score is the one that belongs to the counters.
    pub open spec fn score_is_current(&self) -> bool {
        self.reputation_score == self.score()
    }

    /// The dispute rate of this entity, in percent.
    pub open spec fn dispute_rate(&self) -> int {
        dispute_rate(self.disputes_filed as int, self.total_transactions as int)
    }

    /// What a dispute costs this entity.
    pub open spec fn dispute_cost(&self) -> int {
        dispute_cost_at(self.dispute_rate())
    }

    /// The record of an entity that has no history.
    pub open spec fn fresh(entity: Address, now: i64, bump: u8) -> EntityReputation {
        EntityReputation {
            entity,
            entity_type: EntityType::Agent,
            total_transactions: 0,
            disputes_filed: 0,
            disputes_won: 0,
            disputes_partial: 0,
            disputes_lost: 0,
            average_quality_received: 0,
            reputation_score: INITIAL_REPUTATION_SCORE,
            created_at: now,
            last_updated: now,
            bump,
        }
    }

    /// This record with one more dispute filed.
    pub open spec fn with_dispute_filed(self) -> EntityReputation {
        EntityReputation { disputes_filed: bumped(self.disputes_filed), ..self }
    }

    /// This record after a resolution in which the entity received `quality`
    /// and `percentage` percent went its way: one more transaction, the mean
    /// carried on, the outcome counted, the score computed afresh.
    pub open spec fn after_outcome(self, quality: u8, percentage: u8, now: i64) -> EntityReputation {
        let count = bumped(self.total_transactions);
        let outcome = outcome_of(percentage as int);
        let counted = EntityReputation {
            total_transactions: count,
            average_quality_received: running_mean(
                self.average_quality_received as int,
                count as int,
                quality as int,
            ) as u8,
            disputes_won: if outcome == DisputeOutcome::Won {
                bumped(self.disputes_won)
            } else {
                self.disputes_won
            },
            disputes_partial: if outcome == DisputeOutcome::Partial {
                bumped(self.disputes_partial)
            } else {
                self.disputes_partial
            },
            disputes_lost: if outcome == DisputeOutcome::Lost {
                bumped(self.disputes_lost)
            } else {
                self.disputes_lost
            },
            ..self
        };
        EntityReputation { reputation_score: counted.score() as u16, last_updated: now, ..counted }
    }

    /// Counts a resolution in which the entity received `quality` and
    /// `percentage` percent went its way.
    pub fn record_outcome(&mut self, quality: u8, percentage: u8, now: i64)
        ensures
            *final(self) == old(self).after_outcome(quality, percentage, now),
            final(self).score_is_current(),
            final(self).reputation_score <= 1000,
            final(self).average_quality_received as int == running_mean(
                old(self).average_quality_received as int,
                final(self).total_transactions as int,
                quality as int,
            ),
            old(self).wf() && quality <= 100 ==> final(self).wf(),
    {
        let count: u64 = self.total_transactions.saturating_add(1);
        let earlier: u128 = (count - 1) as u128;
        proof {
            lemma_running_mean_bounded(
                self.average_quality_received as int,
                count as int,
                quality as int,
                255,
            );
            if self.average_quality_received <= 100 && quality <= 100 {
                lemma_running_mean_bounded(
                    self.average_quality_received as int,
                    count as int,
                    quality as int,
                    100,
                );
            }
            assert(0 <= (self.average_quality_received as int) * (earlier as int) <= 255
                * 0xffff_ffff_ffff_ffff) by (nonlinear_arith)
                requires
                    0 <= self.average_quality_received <= 255,
                    0 <= earlier <= 0xffff_ffff_ffff_ffff,
            ;
        }
        let sum: u128 = (self.average_quality_received as u128) * earlier + (quality as u128);
        let mean: u128 = sum / (count as u128);
        self.total_transactions = count;
        self.average_quality_received = mean as u8;
        match classify_outcome(percentage) {
            DisputeOutcome::Won => {
                self.disputes_won = self.disputes_won.saturating_add(1);
            },
            DisputeOutcome::Partial => {
                self.disputes_partial = self.disputes_partial.saturating_add(1);
            },
            DisputeOutcome::Lost => {
                self.disputes_lost = self.disputes_lost.saturating_add(1);
            },
        }
        self.reputation_score = calculate_reputation_score(self);
        self.last_updated = now;
    }

    /// Counts one more dispute filed by the entity.
    pub fn record_dispute_filed(&mut self)
        ensures
            *final(self) == old(self).with_dispute_filed(),
    {
        self.disputes_filed = self.disputes_filed.saturating_add(1);
    }
}

/// Starts the reputation of an entity: no history, and the score 500.
pub fn init_reputation(ctx: &mut InitReputation, now: i64) -> (r: Result<(), EscrowError>)
    ensures
        r.is_ok(),
        *final(ctx) == (InitReputation {
            reputation: EntityReputation::fresh(old(ctx).entity, now, old(ctx).bump),
            ..*old(ctx)
        }),
        final(ctx).reputation.wf(),
        final(ctx).reputation.score_is_current(),
{
    ctx.reputation =
    EntityReputation {
        entity: ctx.entity,
        entity_type: EntityType::Agent,
        total_transactions: 0,
        disputes_filed: 0,
        disputes_won: 0,
        disputes_partial: 0,
        disputes_lost: 0,
        average_quality_received: 0,
        reputation_score: INITIAL_REPUTATION_SCORE,
        created_at: now,
        last_updated: now,
        bump: ctx.bump,
    };
    Ok(())
}

/// Enters one resolution into a reputation: the entity received
/// `quality_score`, and `refund_percentage` percent went its way. Whether
/// the caller may do so is not decided here.
pub fn update_reputation(
    ctx: &mut UpdateReputation,
    quality_score: u8,
    refund_percentage: u8,
    now: i64,
) -> (r: Result<(), EscrowError>)
    ensures
        r.is_ok(),
        *final(ctx) == (UpdateReputation {
            reputation: old(ctx).reputation.after_outcome(quality_score, refund_percentage, now),
        }),
        final(ctx).reputation.score_is_current(),
        final(ctx).reputation.reputation_score <= 1000,
        old(ctx).reputation.wf() && quality_score <= 100 ==> final(ctx).reputation.wf(),
{
    ctx.reputation.record_outcome(quality_score, refund_percentage, now);
    Ok(())
}

/// The cost for this entity to open a dispute: the base cost, multiplied by
/// 1, 2, 5 or 10 as its dispute rate passes 20, 40 and 60 percent.
pub fn calculate_dispute_cost(reputation: &EntityReputation) -> (cost: u64)
    ensures
        cost == reputation.dispute_cost(),
        reputation.total_transactions == 0 ==> cost == BASE_DISPUTE_COST,
        BASE_DISPUTE_COST <= cost <= 10 * BASE_DISPUTE_COST,
{
    if reputation.total_transactions == 0 {
        return BASE_DISPUTE_COST;
    }
    proof {
        assert(0 <= (reputation.disputes_filed as int) * 100 <= 0xffff_ffff_ffff_ffff * 100)
            by (nonlinear_arith)
            requires
                0 <= reputation.disputes_filed <= 0xffff_ffff_ffff_ffff,
        ;
    }
    let rate: u128 = (reputation.disputes_filed as u128) * 100 / (
    reputation.total_transactions as u128);
    let multiplier: u64 = if rate <= 20 {
        1
    } else if rate <= 40 {
        2
    } else if rate <= 60 {
        5
    } else {
        10
    };
    match BASE_DISPUTE_COST.checked_mul(multiplier) {
        Some(cost) => cost,
        None => u64::MAX,
    }
}

/// The score of an entity, from its counters: 500 without transactions, else
/// the sum of the three components, capped at 1000.
pub fn calculate_reputation_score(reputation: &EntityReputation) -> (score: u16)
    ensures
        score == reputation.score(),
        score <= 1000,
        reputation.total_transactions == 0 ==> score == 500,
{
    if reputation.total_transactions == 0 {
        return INITIAL_REPUTATION_SCORE;
    }
    let counted: u16 = if reputation.total_transactions >= 100 {
        100
    } else {
        reputation.total_transactions as u16
    };
    let transactions: u16 = counted * 5;
    let disputes: u16 = if reputation.disputes_filed > 0 {
        proof {
            assert(0 <= (reputation.disputes_won as int) * 100 <= 0xffff_ffff_ffff_ffff * 100)
                by (nonlinear_arith)
                requires
                    0 <= reputation.disputes_won <= 0xffff_ffff_ffff_ffff,
            ;
        }
        let win_rate: u128 = (reputation.disputes_won as u128) * 100 / (
        reputation.disputes_filed as u128);
        if win_rate >= 100 {
            300
        } else {
            (win_rate as u16) * 3
        }
    } else {
        150
    };
    let doubled: u16 = (reputation.average_quality_received as u16) * 2;
    let quality: u16 = if doubled >= 200 {
        200
    } else {
        doubled
    };
    let sum: u16 = transactions + disputes + quality;
    if sum >= 1000 {
        1000
    } else {
        sum
    }
}

} // verus!
