//! What each operation works on: the records it reads and writes and the
//! plain facts about its caller, as the host hands them over.

use vstd::prelude::*;

use crate::signature::InstructionsSysvar;
use crate::state::{Address, EntityReputation, Escrow, RateLimiter};

verus! {

/// The setting of `initialize_escrow`.
#[derive(Clone, Debug, PartialEq, Eq)]
pub struct InitializeEscrow {
    /// The address of the holding account, derived from the transaction identifier.
    pub escrow_address: Address,
    /// The record to fill.
    pub escrow: Escrow,
    /// The payer, who makes the call.
    pub agent: Address,
    /// The payee.
    pub api: Address,
    /// The salt of the holding account's address.
    pub bump: u8,
}

/// The setting of `release_funds`.
#[derive(Clone, Debug, PartialEq, Eq)]
pub struct ReleaseFunds {
    pub escrow_address: Address,
    pub escrow: Escrow,
    /// The caller.
    pub agent: Address,
}

/// The setting of `resolve_dispute`.
#[derive(Clone, Debug, PartialEq, Eq)]
pub struct ResolveDispute {
    pub escrow_address: Address,
    pub escrow: Escrow,
    /// The key the attestation must be signed with.
    pub verifier: Address,
    /// The account that lists the instructions of the bundle.
    pub instructions_sysvar: InstructionsSysvar,
    pub agent_reputation: EntityReputation,
    pub api_reputation: EntityReputation,
}

/// The setting of `resolve_dispute_switchboard`.
#[derive(Clone, Debug, PartialEq, Eq)]
pub struct ResolveDisputeSwitchboard {
    pub escrow_address: Address,
    pub escrow: Escrow,
    /// The address of the feed account.
    pub switchboard_function: Address,
    /// The data of the feed account.
    pub feed_data: Vec<u8>,
    pub agent_reputation: EntityReputation,
    pub api_reputation: EntityReputation,
}

/// The setting of `mark_disputed`.
#[derive(Clone, Debug, PartialEq, Eq)]
pub struct MarkDisputed {
    pub escrow_address: Address,
    pub escrow: Escrow,
    /// The reputation of the caller.
    pub reputation: EntityReputation,
    /// The caller.
    pub agent: Address,
    /// The value units the caller has at its disposal.
    pub agent_balance: u64,
}

/// The setting of `init_reputation`.
#[derive(Clone, Copy, Debug, PartialEq, Eq)]
pub struct InitReputation {
    /// The record to fill.
    pub reputation: EntityReputation,
    /// The entity the record is about.
    pub entity: Address,
    /// The salt of the record's address.
    pub bump: u8,
}

/// The setting of `update_reputation`.
#[derive(Clone, Copy, Debug, PartialEq, Eq)]
pub struct UpdateReputation {
    pub reputation: EntityReputation,
}

/// The setting of `check_rate_limit`.
#[derive(Clone, Copy, Debug, PartialEq, Eq)]
pub struct CheckRateLimit {
    pub rate_limiter: RateLimiter,
}

} // verus!
