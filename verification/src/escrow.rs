//! The escrow state machine.
//!
//! An escrow starts `Active`. From there it is released to the provider, by
//! the agent at any time or by anyone once the time lock has run out; or the
//! agent disputes it before the time lock runs out; or an attested quality
//! score resolves it, from `Active` or from `Disputed`. `Released` and
//! `Resolved` are final.
//!
//! An operation either does all of its work or refuses and changes nothing.
//! Value is moved by the caller: the record an operation hands back on
//! success names the amounts.

use vstd::prelude::*;

use crate::context::{InitializeEscrow, MarkDisputed, ReleaseFunds};
use crate::error::EscrowError;
use crate::events::{DisputeMarked, EscrowInitialized, FundsReleased};
use crate::reputation::calculate_dispute_cost;
use crate::state::{
    valid_transaction_id, Address, Escrow, EscrowStatus, MAX_ESCROW_AMOUNT,
    MAX_TIME_LOCK, MAX_TRANSACTION_ID_LEN, MIN_ESCROW_AMOUNT, MIN_TIME_LOCK,
};

verus! {

/// Why an escrow with these parameters cannot be created, if it cannot. The
/// checks are made in this order: the amount against its floor and its
/// ceiling, the time lock, the identifier, and the amount against the
/// reserve that keeps the holding account alive.
pub open spec fn initialization_refusal(
    amount: u64,
    time_lock: i64,
    transaction_id: Seq<char>,
    rent_minimum: u64,
) -> Option<EscrowError> {
    if amount < MIN_ESCROW_AMOUNT {
        Some(EscrowError::InvalidAmount)
    } else if amount > MAX_ESCROW_AMOUNT {
        Some(EscrowError::AmountTooLarge)
    } else if time_lock < MIN_TIME_LOCK || time_lock > MAX_TIME_LOCK {
        Some(EscrowError::InvalidTimeLock)
    } else if !valid_transaction_id(transaction_id) {
        Some(EscrowError::InvalidTransactionId)
    } else if amount < rent_minimum {
        Some(EscrowError::InsufficientRentReserve)
    } else {
        None
    }
}

/// Why `caller` cannot release the escrow at `now`, if it cannot: the escrow
/// is not active, or someone other than the agent asks before expiry.
pub open spec fn release_refusal(escrow: Escrow, caller: Address, now: i64) -> Option<EscrowError> {
    if escrow.status != EscrowStatus::Active {
        Some(EscrowError::InvalidStatus)
    } else if caller != escrow.agent && now < escrow.expires_at {
        Some(EscrowError::TimeLockNotExpired)
    } else {
        None
    }
}

/// Why `caller` cannot dispute the escrow at `now`, if it cannot: the escrow
/// is not active, the caller is not its agent, the time lock has run out, or
/// the caller's balance is below the cost of the dispute.
pub open spec fn dispute_refusal(ctx: MarkDisputed, now: i64) -> Option<EscrowError> {
    if ctx.escrow.status != EscrowStatus::Active {
        Some(EscrowError::InvalidStatus)
    } else if ctx.agent != ctx.escrow.agent {
        Some(EscrowError::Unauthorized)
    } else if now >= ctx.escrow.expires_at {
        Some(EscrowError::DisputeWindowExpired)
    } else if ctx.agent_balance < ctx.reputation.dispute_cost() {
        Some(EscrowError::InsufficientDisputeFunds)
    } else {
        None
    }
}

/// An amount outside its bounds and a time lock outside one hour to thirty
/// days are always refused: the amount first, as too small or too large,
/// then the time lock.
pub proof fn lemma_out_of_bounds_parameters_refused(
    amount: u64,
    time_lock: i64,
    transaction_id: Seq<char>,
    rent_minimum: u64,
)
    ensures
        amount < MIN_ESCROW_AMOUNT ==> initialization_refusal(
            amount,
            time_lock,
            transaction_id,
            rent_minimum,
        ) == Some(EscrowError::InvalidAmount),
        amount > MAX_ESCROW_AMOUNT ==> initialization_refusal(
            amount,
            time_lock,
            transaction_id,
            rent_minimum,
        ) == Some(EscrowError::AmountTooLarge),
        time_lock < 3600 || time_lock > 2_592_000 ==> initialization_refusal(
            amount,
            time_lock,
            transaction_id,
            rent_minimum,
        ).is_some(),
        MIN_ESCROW_AMOUNT <= amount <= MAX_ESCROW_AMOUNT && (time_lock < 3600 || time_lock
            > 2_592_000) ==> initialization_refusal(
            amount,
            time_lock,
            transaction_id,
            rent_minimum,
        ) == Some(EscrowError::InvalidTimeLock),
{
}

/// An active escrow is released for its agent at any time and for anyone
/// from the second of expiry on; for anyone else before expiry it is not.
pub proof fn lemma_release_guard(escrow: Escrow, caller: Address, now: i64)
    requires
        escrow.status == EscrowStatus::Active,
    ensures
        caller == escrow.agent ==> release_refusal(escrow, caller, now).is_none(),
        now >= escrow.expires_at ==> release_refusal(escrow, caller, now).is_none(),
        caller != escrow.agent && now < escrow.expires_at ==> release_refusal(escrow, caller, now)
            == Some(EscrowError::TimeLockNotExpired),
{
}

/// For an agent that can pay the cost, a dispute is admitted exactly when
/// the escrow is active, the caller is its agent and the time lock has not
/// run out; at the second of expiry it is refused.
pub proof fn lemma_dispute_window(ctx: MarkDisputed, now: i64)
    requires
        ctx.agent_balance >= ctx.reputation.dispute_cost(),
    ensures
        dispute_refusal(ctx, now).is_none() <==> {
            &&& ctx.escrow.status == EscrowStatus::Active
            &&& ctx.agent == ctx.escrow.agent
            &&& now < ctx.escrow.expires_at
        },
        now == ctx.escrow.expires_at ==> dispute_refusal(ctx, now).is_some(),
{
}

/// A released or resolved escrow refuses release and dispute alike.
pub proof fn lemma_terminal_escrow_stays(ctx: MarkDisputed, caller: Address, now: i64)
    requires
        ctx.escrow.is_terminal(),
    ensures
        release_refusal(ctx.escrow, caller, now) == Some(EscrowError::InvalidStatus),
        dispute_refusal(ctx, now) == Some(EscrowError::InvalidStatus),
{
}

/// Creates the escrow of `amount` for the transaction `transaction_id`, to
/// expire `time_lock` seconds after `now`.
///
/// `rent_minimum` is the reserve below which the holding account would not
/// stay alive. On success the record is filled, whatever it held before, and
/// the caller is to move `amount` from the agent into the holding account.
///
/// The expiry must be a representable time.
pub fn initialize_escrow(
    ctx: &mut InitializeEscrow,
    amount: u64,
    time_lock: i64,
    transaction_id: String,
    now: i64,
    rent_minimum: u64,
) -> (r: Result<EscrowInitialized, EscrowError>)
    requires
        MIN_TIME_LOCK <= time_lock <= MAX_TIME_LOCK ==> now + time_lock <= i64::MAX,
    ensures
        match initialization_refusal(amount, time_lock, transaction_id@, rent_minimum) {
            Some(e) => r == Err::<EscrowInitialized, EscrowError>(e) && *final(ctx) == *old(ctx),
            None => {
                &&& r matches Ok(event)
                &&& event == (EscrowInitialized {
                    escrow: old(ctx).escrow_address,
                    agent: old(ctx).agent,
                    api: old(ctx).api,
                    amount,
                    expires_at: (now + time_lock) as i64,
                    transaction_id,
                })
                &&& *final(ctx) == (InitializeEscrow {
                    escrow: Escrow {
                        agent: old(ctx).agent,
                        api: old(ctx).api,
                        amount,
                        status: EscrowStatus::Active,
                        created_at: now,
                        expires_at: (now + time_lock) as i64,
                        transaction_id,
                        bump: old(ctx).bump,
                        quality_score: None,
                        refund_percentage: None,
                    },
                    ..*old(ctx)
                })
            },
        },
        r.is_ok() ==> final(ctx).escrow.wf(),
{
    if amount < MIN_ESCROW_AMOUNT {
        return Err(EscrowError::InvalidAmount);
    }
    if amount > MAX_ESCROW_AMOUNT {
        return Err(EscrowError::AmountTooLarge);
    }
    if time_lock < MIN_TIME_LOCK || time_lock > MAX_TIME_LOCK {
        return Err(EscrowError::InvalidTimeLock);
    }
    let id_len = transaction_id.as_str().as_bytes().len();
    if id_len < 1 || id_len > MAX_TRANSACTION_ID_LEN {
        return Err(EscrowError::InvalidTransactionId);
    }
    if amount < rent_minimum {
        return Err(EscrowError::InsufficientRentReserve);
    }
    let expires_at: i64 = now + time_lock;
    ctx.escrow.agent = ctx.agent;
    ctx.escrow.api = ctx.api;
    ctx.escrow.amount = amount;
    ctx.escrow.status = EscrowStatus::Active;
    ctx.escrow.created_at = now;
    ctx.escrow.expires_at = expires_at;
    ctx.escrow.transaction_id = transaction_id.clone();
    ctx.escrow.bump = ctx.bump;
    ctx.escrow.quality_score = None;
    ctx.escrow.refund_percentage = None;
    Ok(
        EscrowInitialized {
            escrow: ctx.escrow_address,
            agent: ctx.agent,
            api: ctx.api,
            amount,
            expires_at,
            transaction_id,
        },
    )
}

/// Releases the whole amount to the provider.
///
/// The agent may release at any time; anyone else only once the time lock
/// has run out. On success the escrow is `Released` and the caller is to
/// move the amount from the holding account to the provider.
pub fn release_funds(ctx: &mut ReleaseFunds, now: i64) -> (r: Result<FundsReleased, EscrowError>)
    ensures
        r.is_ok() <==> old(ctx).escrow.status == EscrowStatus::Active && (old(ctx).agent == old(
            ctx,
        ).escrow.agent || now >= old(ctx).escrow.expires_at),
        match release_refusal(old(ctx).escrow, old(ctx).agent, now) {
            Some(e) => r == Err::<FundsReleased, EscrowError>(e) && *final(ctx) == *old(ctx),
            None => {
                &&& r matches Ok(event)
                &&& event == (FundsReleased {
                    escrow: old(ctx).escrow_address,
                    transaction_id: old(ctx).escrow.transaction_id,
                    amount: old(ctx).escrow.amount,
                    api: old(ctx).escrow.api,
                    timestamp: now,
                })
                &&& *final(ctx) == (ReleaseFunds {
                    escrow: Escrow { status: EscrowStatus::Released, ..old(ctx).escrow },
                    ..*old(ctx)
                })
            },
        },
        r.is_ok() ==> old(ctx).escrow.status.may_become(final(ctx).escrow.status),
        old(ctx).escrow.wf() ==> final(ctx).escrow.wf(),
{
    match ctx.escrow.status {
        EscrowStatus::Active => {},
        _ => { return Err(EscrowError::InvalidStatus); },
    }
    let is_agent = ctx.agent.same(&ctx.escrow.agent);
    let time_lock_expired = now >= ctx.escrow.expires_at;
    if !is_agent && !time_lock_expired {
        return Err(EscrowError::TimeLockNotExpired);
    }
    ctx.escrow.status = EscrowStatus::Released;
    Ok(
        FundsReleased {
            escrow: ctx.escrow_address,
            transaction_id: ctx.escrow.transaction_id.clone(),
            amount: ctx.escrow.amount,
            api: ctx.escrow.api,
            timestamp: now,
        },
    )
}

/// Marks the escrow as disputed by its agent.
///
/// Only the agent may dispute, only an active escrow, and only before the
/// time lock runs out: at the second of expiry the window is closed. The
/// agent must hold at least the cost of the dispute, which rises with its
/// dispute rate; the cost is not charged here. On success the escrow is
/// `Disputed` and the agent has one more dispute filed.
pub fn mark_disputed(ctx: &mut MarkDisputed, now: i64) -> (r: Result<DisputeMarked, EscrowError>)
    ensures
        r.is_ok() <==> {
            &&& old(ctx).escrow.status == EscrowStatus::Active
            &&& old(ctx).agent == old(ctx).escrow.agent
            &&& now < old(ctx).escrow.expires_at
            &&& old(ctx).agent_balance >= old(ctx).reputation.dispute_cost()
        },
        match dispute_refusal(*old(ctx), now) {
            Some(e) => r == Err::<DisputeMarked, EscrowError>(e) && *final(ctx) == *old(ctx),
            None => {
                &&& r matches Ok(event)
                &&& event == (DisputeMarked {
                    escrow: old(ctx).escrow_address,
                    agent: old(ctx).escrow.agent,
                    transaction_id: old(ctx).escrow.transaction_id,
                    timestamp: now,
                })
                &&& *final(ctx) == (MarkDisputed {
                    escrow: Escrow { status: EscrowStatus::Disputed, ..old(ctx).escrow },
                    reputation: old(ctx).reputation.with_dispute_filed(),
                    ..*old(ctx)
                })
            },
        },
        r.is_ok() ==> old(ctx).escrow.status.may_become(final(ctx).escrow.status),
        old(ctx).escrow.wf() ==> final(ctx).escrow.wf(),
{
    match ctx.escrow.status {
        EscrowStatus::Active => {},
        _ => { return Err(EscrowError::InvalidStatus); },
    }
    if !ctx.agent.same(&ctx.escrow.agent) {
        return Err(EscrowError::Unauthorized);
    }
    if now >= ctx.escrow.expires_at {
        return Err(EscrowError::DisputeWindowExpired);
    }
    let dispute_cost = calculate_dispute_cost(&ctx.reputation);
    if ctx.agent_balance < dispute_cost {
        return Err(EscrowError::InsufficientDisputeFunds);
    }
    ctx.reputation.record_dispute_filed();
    ctx.escrow.status = EscrowStatus::Disputed;
    Ok(
        DisputeMarked {
            escrow: ctx.escrow_address,
            agent: ctx.escrow.agent,
            transaction_id: ctx.escrow.transaction_id.clone(),
            timestamp: now,
        },
    )
}

} // verus!
