//! The records an operation hands back for whoever follows the engine from
//! outside. Each one also tells the caller which transfer to make.

use vstd::prelude::*;

use crate::state::Address;

verus! {

/// An escrow was created and `amount` is to move from the agent into the
/// holding account.
#[derive(Clone, Debug, PartialEq, Eq)]
pub struct EscrowInitialized {
    pub escrow: Address,
    pub agent: Address,
    pub api: Address,
    pub amount: u64,
    pub expires_at: i64,
    pub transaction_id: String,
}

/// The agent disputed the quality of what it received.
#[derive(Clone, Debug, PartialEq, Eq)]
pub struct DisputeMarked {
    pub escrow: Address,
    pub agent: Address,
    pub transaction_id: String,
    pub timestamp: i64,
}

/// A dispute was resolved: `refund_amount` is to move from the holding
/// account to the agent and `payment_amount` to the provider.
#[derive(Clone, Debug, PartialEq, Eq)]
pub struct DisputeResolved {
    pub escrow: Address,
    pub transaction_id: String,
    pub quality_score: u8,
    pub refund_percentage: u8,
    pub refund_amount: u64,
    pub payment_amount: u64,
    /// Who attested the quality: the signer, or the oracle feed.
    pub verifier: Address,
}

/// The escrow was released: `amount` is to move from the holding account to
/// the provider.
#[derive(Clone, Debug, PartialEq, Eq)]
pub struct FundsReleased {
    pub escrow: Address,
    pub transaction_id: String,
    pub amount: u64,
    pub api: Address,
    pub timestamp: i64,
}

} // verus!
