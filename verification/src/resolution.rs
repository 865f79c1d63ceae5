//! Dispute resolution: an attested quality score splits the escrow between
//! the agent and the provider and is entered into both reputations.
//!
//! The attestation comes from a signer, through a co-submitted verification
//! record, or from an oracle feed. Either way the escrow must be `Active` or
//! `Disputed`, and quality score and refund percentage at most 100. The
//! checks are made in that order, before anything is changed.

use vstd::prelude::*;

use crate::context::{ResolveDispute, ResolveDisputeSwitchboard};
use crate::error::EscrowError;
use crate::events::DisputeResolved;
use crate::oracle::{
    attestation_verdict, check_attestation, read_pull_feed, starts_as_pull_feed, OracleReading,
};
use crate::signature::{
    attestation_message, canonical_message, first_instruction, instruction_vouches,
    load_first_instruction, verify_instruction, VerificationRecord,
};
use crate::split::{calculate_split, payment_of, refund_of};
use crate::state::{Address, EntityReputation, Escrow, EscrowStatus};

verus! {

/// Why the escrow cannot be resolved with these values whatever the
/// attestation says, if it cannot: it is neither active nor disputed, or one
/// of the values is above 100.
pub open spec fn resolution_precheck(
    escrow: Escrow,
    quality_score: u8,
    refund_percentage: u8,
) -> Option<EscrowError> {
    if escrow.status != EscrowStatus::Active && escrow.status != EscrowStatus::Disputed {
        Some(EscrowError::InvalidStatus)
    } else if quality_score > 100 {
        Some(EscrowError::InvalidQualityScore)
    } else if refund_percentage > 100 {
        Some(EscrowError::InvalidRefundPercentage)
    } else {
        None
    }
}

/// Why a resolution signed with `signature` is refused, if it is: for one
/// of the reasons above, or because `instruction`, the first of the bundle,
/// is missing or does not vouch for the signature by the expected verifier
/// over the canonical message.
pub open spec fn signed_resolution_refusal(
    ctx: ResolveDispute,
    quality_score: u8,
    refund_percentage: u8,
    signature: Seq<u8>,
    instruction: Option<(Seq<u8>, Seq<u8>)>,
) -> Option<EscrowError> {
    match resolution_precheck(ctx.escrow, quality_score, refund_percentage) {
        Some(e) => Some(e),
        None => if instruction_vouches(
            instruction,
            signature,
            ctx.verifier.bytes@,
            canonical_message(ctx.escrow.transaction_id@, quality_score),
        ) {
            None
        } else {
            Some(EscrowError::InvalidSignature)
        },
    }
}

/// Why a resolution by the oracle reading is refused, if it is: for one of
/// the reasons of the precheck, or because the reading is missing, stale or
/// publishes another value than the quality score.
pub open spec fn oracle_resolution_refusal(
    escrow: Escrow,
    quality_score: u8,
    refund_percentage: u8,
    now: i64,
    reading: Option<OracleReading>,
) -> Option<EscrowError> {
    match resolution_precheck(escrow, quality_score, refund_percentage) {
        Some(e) => Some(e),
        None => match attestation_verdict(reading, now, quality_score) {
            Err(e) => Some(e),
            Ok(_) => None,
        },
    }
}

/// The escrow once resolved with the given values.
pub open spec fn resolved_escrow(escrow: Escrow, quality_score: u8, refund_percentage: u8) -> Escrow {
    Escrow {
        status: EscrowStatus::Resolved,
        quality_score: Some(quality_score),
        refund_percentage: Some(refund_percentage),
        ..escrow
    }
}

/// The quality the provider delivered, as the refund shows it: what was not
/// refunded.
pub open spec fn delivered_quality(refund_percentage: u8) -> u8 {
    (100 - refund_percentage) as u8
}

/// The agent's reputation after a resolution: it received the attested
/// quality, and the refunded share went its way.
pub open spec fn agent_reputation_after(
    reputation: EntityReputation,
    quality_score: u8,
    refund_percentage: u8,
    now: i64,
) -> EntityReputation {
    reputation.after_outcome(quality_score, refund_percentage, now)
}

/// The provider's reputation after a resolution, the mirror image of the
/// agent's: the share that was not refunded is both the quality it delivered
/// and what went its way.
pub open spec fn provider_reputation_after(
    reputation: EntityReputation,
    refund_percentage: u8,
    now: i64,
) -> EntityReputation {
    reputation.after_outcome(
        delivered_quality(refund_percentage),
        delivered_quality(refund_percentage),
        now,
    )
}

/// The record of a resolution: the values, the split of the escrow's amount
/// and who attested.
pub open spec fn resolution_record(
    escrow_address: Address,
    escrow: Escrow,
    quality_score: u8,
    refund_percentage: u8,
    verifier: Address,
) -> DisputeResolved {
    DisputeResolved {
        escrow: escrow_address,
        transaction_id: escrow.transaction_id,
        quality_score,
        refund_percentage,
        refund_amount: refund_of(escrow.amount as int, refund_percentage as int) as u64,
        payment_amount: payment_of(escrow.amount as int, refund_percentage as int) as u64,
        verifier,
    }
}

/// What a resolution signed with `signature` does, where `instruction` is
/// the first of the bundle: refused, the result is the error and nothing
/// changes; else the escrow is resolved, both reputations are updated, and
/// the result records the split with the signer as the verifier.
pub open spec fn signed_resolution_outcome(
    before: ResolveDispute,
    quality_score: u8,
    refund_percentage: u8,
    signature: Seq<u8>,
    now: i64,
    instruction: Option<(Seq<u8>, Seq<u8>)>,
    result: Result<DisputeResolved, EscrowError>,
    after: ResolveDispute,
) -> bool {
    match signed_resolution_refusal(
        before,
        quality_score,
        refund_percentage,
        signature,
        instruction,
    ) {
        Some(e) => result == Err::<DisputeResolved, EscrowError>(e) && after == before,
        None => {
            &&& result == Ok::<DisputeResolved, EscrowError>(
                resolution_record(
                    before.escrow_address,
                    before.escrow,
                    quality_score,
                    refund_percentage,
                    before.verifier,
                ),
            )
            &&& after == (ResolveDispute {
                escrow: resolved_escrow(before.escrow, quality_score, refund_percentage),
                agent_reputation: agent_reputation_after(
                    before.agent_reputation,
                    quality_score,
                    refund_percentage,
                    now,
                ),
                api_reputation: provider_reputation_after(
                    before.api_reputation,
                    refund_percentage,
                    now,
                ),
                ..before
            })
        },
    }
}

/// What a resolution by the oracle reading `reading` does: refused, the
/// result is the error and nothing changes; else the escrow is resolved, both
/// reputations are updated, and the result records the split with the feed
/// as the verifier.
pub open spec fn oracle_resolution_outcome(
    before: ResolveDisputeSwitchboard,
    quality_score: u8,
    refund_percentage: u8,
    now: i64,
    reading: Option<OracleReading>,
    result: Result<DisputeResolved, EscrowError>,
    after: ResolveDisputeSwitchboard,
) -> bool {
    match oracle_resolution_refusal(before.escrow, quality_score, refund_percentage, now, reading) {
        Some(e) => result == Err::<DisputeResolved, EscrowError>(e) && after == before,
        None => {
            &&& result == Ok::<DisputeResolved, EscrowError>(
                resolution_record(
                    before.escrow_address,
                    before.escrow,
                    quality_score,
                    refund_percentage,
                    before.switchboard_function,
                ),
            )
            &&& after == (ResolveDisputeSwitchboard {
                escrow: resolved_escrow(before.escrow, quality_score, refund_percentage),
                agent_reputation: agent_reputation_after(
                    before.agent_reputation,
                    quality_score,
                    refund_percentage,
                    now,
                ),
                api_reputation: provider_reputation_after(
                    before.api_reputation,
                    refund_percentage,
                    now,
                ),
                ..before
            })
        },
    }
}

/// A quality score or a refund percentage above 100 is refused before
/// anything is read or changed, whatever the attestation says.
pub proof fn lemma_out_of_range_values_refused(
    escrow: Escrow,
    quality_score: u8,
    refund_percentage: u8,
)
    requires
        quality_score > 100 || refund_percentage > 100,
    ensures
        resolution_precheck(escrow, quality_score, refund_percentage).is_some(),
        escrow.status == EscrowStatus::Active || escrow.status == EscrowStatus::Disputed ==> {
            resolution_precheck(escrow, quality_score, refund_percentage) == Some(
                if quality_score > 100 {
                    EscrowError::InvalidQualityScore
                } else {
                    EscrowError::InvalidRefundPercentage
                },
            )
        },
{
}

/// A released or resolved escrow cannot be resolved.
pub proof fn lemma_terminal_escrow_not_resolved(
    escrow: Escrow,
    quality_score: u8,
    refund_percentage: u8,
)
    requires
        escrow.is_terminal(),
    ensures
        resolution_precheck(escrow, quality_score, refund_percentage) == Some(
            EscrowError::InvalidStatus,
        ),
{
}

/// Every resolution hands the whole amount out: the refund and the payment
/// in its record add up to the escrow's amount.
pub proof fn lemma_resolution_conserves_amount(
    escrow_address: Address,
    escrow: Escrow,
    quality_score: u8,
    refund_percentage: u8,
    verifier: Address,
)
    requires
        refund_percentage <= 100,
    ensures
        ({
            let record = resolution_record(
                escrow_address,
                escrow,
                quality_score,
                refund_percentage,
                verifier,
            );
            record.refund_amount + record.payment_amount == escrow.amount
        }),
{
    crate::split::lemma_refund_within_amount(escrow.amount as int, refund_percentage as int);
}

/// Checks what every resolution checks first.
fn precheck(escrow: &Escrow, quality_score: u8, refund_percentage: u8) -> (r: Result<
    (),
    EscrowError,
>)
    ensures
        match resolution_precheck(*escrow, quality_score, refund_percentage) {
            Some(e) => r == Err::<(), EscrowError>(e),
            None => r.is_ok(),
        },
{
    match escrow.status {
        EscrowStatus::Active => {},
        EscrowStatus::Disputed => {},
        _ => { return Err(EscrowError::InvalidStatus); },
    }
    if quality_score > 100 {
        return Err(EscrowError::InvalidQualityScore);
    }
    if refund_percentage > 100 {
        return Err(EscrowError::InvalidRefundPercentage);
    }
    Ok(())
}

/// Resolves the escrow once the attestation is accepted: computes the split,
/// marks the escrow, and enters the outcome into both reputations.
fn settle(
    escrow_address: Address,
    escrow: &mut Escrow,
    agent_reputation: &mut EntityReputation,
    api_reputation: &mut EntityReputation,
    quality_score: u8,
    refund_percentage: u8,
    verifier: Address,
    now: i64,
) -> (r: Result<DisputeResolved, EscrowError>)
    requires
        quality_score <= 100,
        refund_percentage <= 100,
    ensures
        r == Ok::<DisputeResolved, EscrowError>(
            resolution_record(
                escrow_address,
                *old(escrow),
                quality_score,
                refund_percentage,
                verifier,
            ),
        ),
        *final(escrow) == resolved_escrow(*old(escrow), quality_score, refund_percentage),
        *final(agent_reputation) == agent_reputation_after(
            *old(agent_reputation),
            quality_score,
            refund_percentage,
            now,
        ),
        *final(api_reputation) == provider_reputation_after(
            *old(api_reputation),
            refund_percentage,
            now,
        ),
{
    let (refund_amount, payment_amount) = match calculate_split(escrow.amount, refund_percentage) {
        Ok(parts) => parts,
        Err(e) => { return Err(e); },
    };
    escrow.status = EscrowStatus::Resolved;
    escrow.quality_score = Some(quality_score);
    escrow.refund_percentage = Some(refund_percentage);
    agent_reputation.record_outcome(quality_score, refund_percentage, now);
    let quality_delivered: u8 = 100 - refund_percentage;
    api_reputation.record_outcome(quality_delivered, quality_delivered, now);
    Ok(
        DisputeResolved {
            escrow: escrow_address,
            transaction_id: escrow.transaction_id.clone(),
            quality_score,
            refund_percentage,
            refund_amount,
            payment_amount,
            verifier,
        },
    )
}

/// Resolves the escrow by a signed attestation of `quality_score`, vouched
/// for by `instruction`, the first instruction of the bundle.
///
/// The signature must be the one that the instruction vouches for, by the
/// expected verifier, over the message made of the transaction identifier, a
/// colon and the quality score in decimal. On success the escrow is
/// `Resolved` with both values recorded, both reputations are updated, and
/// the caller is to move the refund to the agent and the payment to the
/// provider; the two add up to the escrow's amount.
pub fn resolve_dispute_with_instruction(
    ctx: &mut ResolveDispute,
    quality_score: u8,
    refund_percentage: u8,
    signature: [u8; 64],
    now: i64,
    instruction: Option<&VerificationRecord>,
) -> (r: Result<DisputeResolved, EscrowError>)
    ensures
        signed_resolution_outcome(
            *old(ctx),
            quality_score,
            refund_percentage,
            signature@,
            now,
            match instruction {
                Some(record) => Some(record.parts()),
                None => None,
            },
            r,
            *final(ctx),
        ),
        r matches Ok(event) ==> event.refund_amount + event.payment_amount == old(
            ctx,
        ).escrow.amount,
        old(ctx).escrow.wf() ==> final(ctx).escrow.wf(),
        r.is_ok() ==> old(ctx).escrow.status.may_become(final(ctx).escrow.status),
{
    match precheck(&ctx.escrow, quality_score, refund_percentage) {
        Ok(_) => {},
        Err(e) => { return Err(e); },
    }
    let message = attestation_message(ctx.escrow.transaction_id.as_str(), quality_score);
    match verify_instruction(instruction, &signature, &ctx.verifier, message.as_slice()) {
        Ok(_) => {},
        Err(e) => { return Err(e); },
    }
    proof {
        crate::split::lemma_refund_within_amount(
            ctx.escrow.amount as int,
            refund_percentage as int,
        );
    }
    settle(
        ctx.escrow_address,
        &mut ctx.escrow,
        &mut ctx.agent_reputation,
        &mut ctx.api_reputation,
        quality_score,
        refund_percentage,
        ctx.verifier,
        now,
    )
}

/// Resolves the escrow by a signed attestation of `quality_score`.
///
/// The first instruction of the bundle is read from the instructions
/// account that the context holds, and the resolution then goes as in
/// `resolve_dispute_with_instruction`.
pub fn resolve_dispute(
    ctx: &mut ResolveDispute,
    quality_score: u8,
    refund_percentage: u8,
    signature: [u8; 64],
    now: i64,
) -> (r: Result<DisputeResolved, EscrowError>)
    ensures
        signed_resolution_outcome(
            *old(ctx),
            quality_score,
            refund_percentage,
            signature@,
            now,
            first_instruction(
                old(ctx).instructions_sysvar.key.bytes@,
                old(ctx).instructions_sysvar.data@,
            ),
            r,
            *final(ctx),
        ),
        r matches Ok(event) ==> event.refund_amount + event.payment_amount == old(
            ctx,
        ).escrow.amount,
        old(ctx).escrow.wf() ==> final(ctx).escrow.wf(),
        r.is_ok() ==> old(ctx).escrow.status.may_become(final(ctx).escrow.status),
{
    let instruction = load_first_instruction(&ctx.instructions_sysvar);
    resolve_dispute_with_instruction(
        ctx,
        quality_score,
        refund_percentage,
        signature,
        now,
        instruction.as_ref(),
    )
}

/// Resolves the escrow by what an oracle feed was read to publish.
///
/// The reading must be present, between 0 and 300 seconds old at `now`, and
/// publish exactly `quality_score`. On success the escrow is `Resolved` with
/// both values recorded, both reputations are updated, and the caller is to
/// move the refund to the agent and the payment to the provider; the feed's
/// address is recorded as the verifier.
pub fn resolve_dispute_with_reading(
    ctx: &mut ResolveDisputeSwitchboard,
    quality_score: u8,
    refund_percentage: u8,
    now: i64,
    reading: Option<OracleReading>,
) -> (r: Result<DisputeResolved, EscrowError>)
    ensures
        oracle_resolution_outcome(
            *old(ctx),
            quality_score,
            refund_percentage,
            now,
            reading,
            r,
            *final(ctx),
        ),
        r matches Ok(event) ==> event.refund_amount + event.payment_amount == old(
            ctx,
        ).escrow.amount,
        old(ctx).escrow.wf() ==> final(ctx).escrow.wf(),
        r.is_ok() ==> old(ctx).escrow.status.may_become(final(ctx).escrow.status),
{
    match precheck(&ctx.escrow, quality_score, refund_percentage) {
        Ok(_) => {},
        Err(e) => { return Err(e); },
    }
    match check_attestation(reading, now, quality_score) {
        Ok(_) => {},
        Err(e) => { return Err(e); },
    }
    proof {
        crate::split::lemma_refund_within_amount(
            ctx.escrow.amount as int,
            refund_percentage as int,
        );
    }
    settle(
        ctx.escrow_address,
        &mut ctx.escrow,
        &mut ctx.agent_reputation,
        &mut ctx.api_reputation,
        quality_score,
        refund_percentage,
        ctx.switchboard_function,
        now,
    )
}

/// Resolves the escrow by the oracle feed whose account data the context
/// holds.
///
/// The data is parsed by the oracle network's own reader, and the reading is
/// then treated as in `resolve_dispute_with_reading`. What the reader makes
/// of the data is not modelled beyond this: data that does not start as a
/// pull feed gives no reading. So the contract says that the outcome is the
/// one that belongs to some reading the data may give, and names the
/// outcomes that do not depend on the reading at all.
pub fn resolve_dispute_switchboard(
    ctx: &mut ResolveDisputeSwitchboard,
    quality_score: u8,
    refund_percentage: u8,
    now: i64,
) -> (r: Result<DisputeResolved, EscrowError>)
    ensures
        exists|reading: Option<OracleReading>|
            {
                &&& reading.is_some() ==> starts_as_pull_feed(old(ctx).feed_data@)
                &&& #[trigger] oracle_resolution_outcome(
                    *old(ctx),
                    quality_score,
                    refund_percentage,
                    now,
                    reading,
                    r,
                    *final(ctx),
                )
            },
        resolution_precheck(old(ctx).escrow, quality_score, refund_percentage) matches Some(e)
            ==> r == Err::<DisputeResolved, EscrowError>(e),
        resolution_precheck(old(ctx).escrow, quality_score, refund_percentage).is_none()
            && !starts_as_pull_feed(old(ctx).feed_data@) ==> r == Err::<
            DisputeResolved,
            EscrowError,
        >(EscrowError::InvalidSwitchboardAttestation),
        r.is_err() ==> *final(ctx) == *old(ctx),
        r matches Ok(event) ==> event.refund_amount + event.payment_amount == old(
            ctx,
        ).escrow.amount,
        old(ctx).escrow.wf() ==> final(ctx).escrow.wf(),
        r.is_ok() ==> old(ctx).escrow.status.may_become(final(ctx).escrow.status),
{
    let reading = read_pull_feed(ctx.feed_data.as_slice());
    resolve_dispute_with_reading(ctx, quality_score, refund_percentage, now, reading)
}

} // verus!
