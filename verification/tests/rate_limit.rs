use x402_escrow::context::CheckRateLimit;
use x402_escrow::error::EscrowError;
use x402_escrow::rate_limit::{check_rate_limit, get_rate_limits};
use x402_escrow::state::{Address, RateLimiter, VerificationLevel};

fn limiter(level: VerificationLevel) -> CheckRateLimit {
    CheckRateLimit {
        rate_limiter: RateLimiter {
            entity: Address { bytes: [1u8; 32] },
            verification_level: level,
            transactions_last_hour: 0,
            transactions_last_day: 0,
            disputes_last_day: 0,
            last_hour_check: 0,
            last_day_check: 0,
            bump: 0,
        },
    }
}

#[test]
fn limits_by_level() {
    assert_eq!(get_rate_limits(VerificationLevel::Basic), (1, 10, 3));
    assert_eq!(get_rate_limits(VerificationLevel::Staked), (10, 100, 10));
    assert_eq!(get_rate_limits(VerificationLevel::Social), (50, 500, 50));
    assert_eq!(get_rate_limits(VerificationLevel::KYC), (1000, 10000, 1000));
}

#[test]
fn basic_level_allows_one_per_hour() {
    let mut ctx = limiter(VerificationLevel::Basic);
    assert_eq!(check_rate_limit(&mut ctx, 10), Ok(()));
    assert_eq!(ctx.rate_limiter.transactions_last_hour, 1);
    assert_eq!(ctx.rate_limiter.transactions_last_day, 1);
    let before = ctx;
    assert_eq!(check_rate_limit(&mut ctx, 3599), Err(EscrowError::RateLimitExceeded));
    assert_eq!(ctx, before);
    assert_eq!(check_rate_limit(&mut ctx, 3600), Ok(()));
    assert_eq!(ctx.rate_limiter.transactions_last_hour, 1);
    assert_eq!(ctx.rate_limiter.transactions_last_day, 2);
    assert_eq!(ctx.rate_limiter.last_hour_check, 1);
    assert_eq!(ctx.rate_limiter.last_day_check, 0);
}

#[test]
fn basic_level_allows_ten_per_day() {
    let mut ctx = limiter(VerificationLevel::Basic);
    for hour in 0..10i64 {
        assert_eq!(check_rate_limit(&mut ctx, hour * 3600), Ok(()));
    }
    assert_eq!(ctx.rate_limiter.transactions_last_day, 10);
    let before = ctx;
    assert_eq!(check_rate_limit(&mut ctx, 10 * 3600), Err(EscrowError::RateLimitExceeded));
    // a refusal changes nothing, not even the buckets
    assert_eq!(ctx, before);
    assert_eq!(ctx.rate_limiter.last_hour_check, 9);
    assert_eq!(check_rate_limit(&mut ctx, 86_400), Ok(()));
    assert_eq!(ctx.rate_limiter.transactions_last_day, 1);
    assert_eq!(ctx.rate_limiter.transactions_last_hour, 1);
    assert_eq!(ctx.rate_limiter.last_day_check, 1);
    assert_eq!(ctx.rate_limiter.last_hour_check, 24);
}

#[test]
fn staked_level_allows_ten_per_hour() {
    let mut ctx = limiter(VerificationLevel::Staked);
    for second in 0..10i64 {
        assert_eq!(check_rate_limit(&mut ctx, second), Ok(()));
    }
    assert_eq!(check_rate_limit(&mut ctx, 10), Err(EscrowError::RateLimitExceeded));
    assert_eq!(ctx.rate_limiter.transactions_last_hour, 10);
    assert_eq!(ctx.rate_limiter.transactions_last_day, 10);
}

#[test]
fn day_rollover_clears_the_dispute_counter() {
    let mut ctx = limiter(VerificationLevel::Social);
    ctx.rate_limiter.disputes_last_day = 7;
    ctx.rate_limiter.transactions_last_day = 499;
    ctx.rate_limiter.transactions_last_hour = 49;
    assert_eq!(check_rate_limit(&mut ctx, 100), Ok(()));
    assert_eq!(ctx.rate_limiter.disputes_last_day, 7);
    assert_eq!(ctx.rate_limiter.transactions_last_day, 500);
    assert_eq!(ctx.rate_limiter.transactions_last_hour, 50);
    assert_eq!(check_rate_limit(&mut ctx, 200), Err(EscrowError::RateLimitExceeded));
    assert_eq!(check_rate_limit(&mut ctx, 2 * 86_400 + 5), Ok(()));
    assert_eq!(ctx.rate_limiter.disputes_last_day, 0);
    assert_eq!(ctx.rate_limiter.transactions_last_day, 1);
    assert_eq!(ctx.rate_limiter.transactions_last_hour, 1);
    assert_eq!(ctx.rate_limiter.last_day_check, 2);
    assert_eq!(ctx.rate_limiter.last_hour_check, 48);
}

#[test]
fn buckets_never_go_back() {
    let mut ctx = limiter(VerificationLevel::KYC);
    ctx.rate_limiter.last_hour_check = 100;
    ctx.rate_limiter.last_day_check = 4;
    ctx.rate_limiter.transactions_last_hour = 5;
    ctx.rate_limiter.transactions_last_day = 6;
    assert_eq!(check_rate_limit(&mut ctx, 3600), Ok(()));
    assert_eq!(ctx.rate_limiter.last_hour_check, 100);
    assert_eq!(ctx.rate_limiter.last_day_check, 4);
    assert_eq!(ctx.rate_limiter.transactions_last_hour, 6);
    assert_eq!(ctx.rate_limiter.transactions_last_day, 7);
}

#[test]
fn times_before_the_epoch_round_towards_it() {
    let mut ctx = limiter(VerificationLevel::KYC);
    ctx.rate_limiter.last_hour_check = -1;
    ctx.rate_limiter.last_day_check = -1;
    ctx.rate_limiter.transactions_last_hour = 3;
    ctx.rate_limiter.transactions_last_day = 3;
    // -3600 is in hour -1 and, rounding towards zero, in day 0
    assert_eq!(check_rate_limit(&mut ctx, -3600), Ok(()));
    assert_eq!(ctx.rate_limiter.last_hour_check, -1);
    assert_eq!(ctx.rate_limiter.last_day_check, 0);
    assert_eq!(ctx.rate_limiter.transactions_last_hour, 4);
    assert_eq!(ctx.rate_limiter.transactions_last_day, 1);
    // -1 is in hour 0
    assert_eq!(check_rate_limit(&mut ctx, -1), Ok(()));
    assert_eq!(ctx.rate_limiter.last_hour_check, 0);
    assert_eq!(ctx.rate_limiter.transactions_last_hour, 1);
    assert_eq!(ctx.rate_limiter.transactions_last_day, 2);
}

#[test]
fn extreme_times_are_bucketed() {
    let mut ctx = limiter(VerificationLevel::Basic);
    assert_eq!(check_rate_limit(&mut ctx, i64::MAX), Ok(()));
    assert_eq!(ctx.rate_limiter.last_hour_check, i64::MAX / 3600);
    assert_eq!(ctx.rate_limiter.last_day_check, i64::MAX / 86_400);
    let mut early = limiter(VerificationLevel::Basic);
    assert_eq!(check_rate_limit(&mut early, i64::MIN), Ok(()));
    assert_eq!(early.rate_limiter.last_hour_check, 0);
    assert_eq!(early.rate_limiter.last_day_check, 0);
}
