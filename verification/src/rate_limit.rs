//! The rate limiter: how many transactions an entity may start per hour and
//! per day, by the level to which its identity is established.

use vstd::prelude::*;

use crate::context::CheckRateLimit;
use crate::error::EscrowError;
use crate::state::{RateLimiter, VerificationLevel};

verus! {

/// The width of an hour bucket, in seconds.
pub const SECONDS_PER_HOUR: i64 = 3600;

/// The width of a day bucket, in seconds.
pub const SECONDS_PER_DAY: i64 = 86400;

/// The index of the bucket of the given width that `timestamp` falls into.
/// Times before the epoch round towards it.
pub open spec fn bucket_of(timestamp: int, width: int) -> int {
    if timestamp >= 0 {
        timestamp / width
    } else {
        -((-timestamp) / width)
    }
}

/// The limits of a level: transactions per hour, transactions per day,
/// disputes per day.
pub open spec fn limits_of(level: VerificationLevel) -> (u16, u16, u16) {
    match level {
        VerificationLevel::Basic => (1, 10, 3),
        VerificationLevel::Staked => (10, 100, 10),
        VerificationLevel::Social => (50, 500, 50),
        VerificationLevel::KYC => (1000, 10000, 1000),
    }
}

impl RateLimiter {
    /// This limiter brought forward to `now`: where the hour has changed the
    /// hourly counter starts again, and where the day has changed the daily
    /// counters do.
    pub open spec fn rolled_over(self, now: i64) -> RateLimiter {
        let hour = bucket_of(now as int, SECONDS_PER_HOUR as int);
        let day = bucket_of(now as int, SECONDS_PER_DAY as int);
        let hourly = if hour > self.last_hour_check {
            RateLimiter { transactions_last_hour: 0, last_hour_check: hour as i64, ..self }
        } else {
            self
        };
        if day > self.last_day_check {
            RateLimiter {
                transactions_last_day: 0,
                disputes_last_day: 0,
                last_day_check: day as i64,
                ..hourly
            }
        } else {
            hourly
        }
    }

    /// Whether the limiter, as it stands, has room for one more transaction
    /// in the hour and in the day.
    pub open spec fn has_room(self) -> bool {
        let limits = limits_of(self.verification_level);
        self.transactions_last_hour < limits.0 && self.transactions_last_day < limits.1
    }

    /// This limiter with one more transaction counted.
    pub open spec fn with_transaction(self) -> RateLimiter {
        RateLimiter {
            transactions_last_hour: (self.transactions_last_hour + 1) as u16,
            transactions_last_day: (self.transactions_last_day + 1) as u16,
            ..self
        }
    }
}

/// The limits of a level: transactions per hour, transactions per day,
/// disputes per day.
pub fn get_rate_limits(verification: VerificationLevel) -> (limits: (u16, u16, u16))
    ensures
        limits == limits_of(verification),
{
    match verification {
        VerificationLevel::Basic => (1, 10, 3),
        VerificationLevel::Staked => (10, 100, 10),
        VerificationLevel::Social => (50, 500, 50),
        VerificationLevel::KYC => (1000, 10000, 1000),
    }
}

/// The index of the bucket of `width` seconds that `timestamp` falls into.
fn bucket_index(timestamp: i64, width: i64) -> (index: i64)
    requires
        width > 1,
    ensures
        index == bucket_of(timestamp as int, width as int),
{
    timestamp / width
}

/// Admits one more transaction of the entity at `now`, or refuses it.
///
/// The counters are first brought forward to the current hour and day. The
/// transaction is refused where either counter has reached the limit of the
/// entity's level, and then nothing changes; else both counters go up by one.
pub fn check_rate_limit(ctx: &mut CheckRateLimit, now: i64) -> (r: Result<(), EscrowError>)
    ensures
        r.is_ok() <==> old(ctx).rate_limiter.rolled_over(now).has_room(),
        r.is_ok() ==> final(ctx).rate_limiter == old(ctx).rate_limiter.rolled_over(
            now,
        ).with_transaction(),
        r matches Err(e) ==> e == EscrowError::RateLimitExceeded && *final(ctx) == *old(ctx),
        final(ctx).rate_limiter.last_hour_check >= old(ctx).rate_limiter.last_hour_check,
        final(ctx).rate_limiter.last_day_check >= old(ctx).rate_limiter.last_day_check,
{
    let mut limiter = ctx.rate_limiter;
    let current_hour = bucket_index(now, SECONDS_PER_HOUR);
    let current_day = bucket_index(now, SECONDS_PER_DAY);
    if current_hour > limiter.last_hour_check {
        limiter.transactions_last_hour = 0;
        limiter.last_hour_check = current_hour;
    }
    if current_day > limiter.last_day_check {
        limiter.transactions_last_day = 0;
        limiter.disputes_last_day = 0;
        limiter.last_day_check = current_day;
    }
    let (hour_limit, day_limit, _dispute_day_limit) = get_rate_limits(limiter.verification_level);
    if limiter.transactions_last_hour >= hour_limit {
        return Err(EscrowError::RateLimitExceeded);
    }
    if limiter.transactions_last_day >= day_limit {
        return Err(EscrowError::RateLimitExceeded);
    }
    limiter.transactions_last_hour = limiter.transactions_last_hour.saturating_add(1);
    limiter.transactions_last_day = limiter.transactions_last_day.saturating_add(1);
    ctx.rate_limiter = limiter;
    Ok(())
}

} // verus!
