//! Time-locked escrow with attested dispute resolution for pay-per-use API
//! payments between an agent (the payer) and an API provider (the payee).
//!
//! An agent locks a payment for one transaction. The payment goes to the
//! provider when the agent releases it or the time lock runs out, unless the
//! agent disputes the quality first. A dispute is resolved by an attested
//! quality score, signed by a verifier or published by an oracle feed, and
//! the payment is split by the refund percentage that comes with it. Every
//! resolution is entered into the reputation of both parties.
//!
//! The engine works on plain records and moves no value itself: each
//! operation takes the records it concerns and the current time, and on
//! success hands back a record of what is to be moved and announced.

pub mod context;
pub mod error;
pub mod escrow;
pub mod events;
pub mod oracle;
pub mod rate_limit;
pub mod reputation;
pub mod resolution;
pub mod signature;
pub mod split;
pub mod state;

pub use crate::context::{
    CheckRateLimit, InitReputation, InitializeEscrow, MarkDisputed, ReleaseFunds, ResolveDispute,
    ResolveDisputeSwitchboard, UpdateReputation,
};
pub use crate::error::EscrowError;
pub use crate::escrow::{initialize_escrow, mark_disputed, release_funds};
pub use crate::events::{DisputeMarked, DisputeResolved, EscrowInitialized, FundsReleased};
pub use crate::rate_limit::{check_rate_limit, get_rate_limits};
pub use crate::reputation::{
    calculate_dispute_cost, calculate_reputation_score, init_reputation, update_reputation,
};
pub use crate::resolution::{
    resolve_dispute, resolve_dispute_switchboard, resolve_dispute_with_instruction,
    resolve_dispute_with_reading,
};
pub use crate::signature::{verify_ed25519_signature, verify_instruction};
pub use crate::state::{
    Address, EntityReputation, EntityType, Escrow, EscrowStatus, ProviderPenalties, RateLimiter,
    VerificationLevel, WorkAgreement,
};
