//! The records the engine keeps: escrows, reputations and rate limiters.

use vstd::prelude::*;

verus! {

/// The smallest time lock, in seconds: one hour.
pub const MIN_TIME_LOCK: i64 = 3600;

/// The largest time lock, in seconds: thirty days.
pub const MAX_TIME_LOCK: i64 = 2_592_000;

/// The largest amount an escrow may hold, in value units.
pub const MAX_ESCROW_AMOUNT: u64 = 1_000_000_000_000;

/// The smallest amount an escrow may hold, in value units.
pub const MIN_ESCROW_AMOUNT: u64 = 1_000_000;

/// The cost of a dispute for an entity with an ordinary dispute rate.
pub const BASE_DISPUTE_COST: u64 = 1_000_000;

/// The longest transaction identifier, in bytes.
pub const MAX_TRANSACTION_ID_LEN: usize = 64;

/// The address of an account: 32 bytes.
#[derive(Clone, Copy, Debug, PartialEq, Eq)]
pub struct Address {
    pub bytes: [u8; 32],
}

impl Address {
    /// Whether two addresses name the same account.
    pub fn same(&self, other: &Address) -> (r: bool)
        ensures
            r == (*self == *other),
    {
        let mut i: usize = 0;
        while i < 32
            invariant
                i <= 32,
                forall|j: int| 0 <= j < i ==> self.bytes[j] == other.bytes[j],
            decreases 32 - i,
        {
            if self.bytes[i] != other.bytes[i] {
                return false;
            }
            i += 1;
        }
        assert(self.bytes =~= other.bytes);
        true
    }
}

/// Where an escrow stands in its life.
#[derive(Clone, Copy, Debug, PartialEq, Eq, Structural)]
pub enum EscrowStatus {
    /// The payment is locked and awaits release, dispute or resolution.
    Active,
    /// The full amount went to the provider. Terminal.
    Released,
    /// The agent disputed the quality; the escrow awaits resolution.
    Disputed,
    /// The amount was split by an attested quality score. Terminal.
    Resolved,
}

impl EscrowStatus {
    /// The steps an escrow may take: from `Active` to any other status, and
    /// from `Disputed` to `Resolved`. Nothing leads back to `Active`, and
    /// nothing leads out of `Released` or `Resolved`.
    pub open spec fn may_become(self, next: EscrowStatus) -> bool {
        match self {
            EscrowStatus::Active => next != EscrowStatus::Active,
            EscrowStatus::Disputed => next == EscrowStatus::Resolved,
            EscrowStatus::Released => false,
            EscrowStatus::Resolved => false,
        }
    }
}

/// Which side of a transaction an entity stands on.
#[derive(Clone, Copy, Debug, PartialEq, Eq, Structural)]
pub enum EntityType {
    Agent,
    Provider,
}

/// How well an entity's identity is established; it sets the rate limits.
#[derive(Clone, Copy, Debug, PartialEq, Eq, Structural)]
pub enum VerificationLevel {
    /// A wallet and nothing more.
    Basic,
    /// A stake has been put up.
    Staked,
    /// A social account is linked.
    Social,
    /// The identity has been verified.
    KYC,
}

/// The bytes of a transaction identifier.
pub open spec fn id_bytes(id: Seq<char>) -> Seq<u8> {
    vstd::utf8::encode_utf8(id)
}

/// A transaction identifier is valid when it has between 1 and 64 bytes.
pub open spec fn valid_transaction_id(id: Seq<char>) -> bool {
    1 <= id_bytes(id).len() <= MAX_TRANSACTION_ID_LEN
}

/// One escrow: the payment of one transaction, held until release or resolution.
#[derive(Clone, Debug, PartialEq, Eq)]
pub struct Escrow {
    /// The payer.
    pub agent: Address,
    /// The payee.
    pub api: Address,
    /// The value units held.
    pub amount: u64,
    pub status: EscrowStatus,
    /// When the escrow was created, in seconds.
    pub created_at: i64,
    /// When the time lock runs out, in seconds.
    pub expires_at: i64,
    /// The transaction the payment is for; the holding account is addressed by it.
    pub transaction_id: String,
    /// The salt of the holding account's address.
    pub bump: u8,
    /// The attested quality, once resolved.
    pub quality_score: Option<u8>,
    /// The share refunded to the agent, once resolved.
    pub refund_percentage: Option<u8>,
}

impl Escrow {
    /// The invariant of an escrow that went through `initialize_escrow`: the
    /// amount and the time lock are within their bounds, the identifier is
    /// valid, and the attested values are present exactly when the escrow is
    /// resolved, each at most 100.
    pub open spec fn wf(&self) -> bool {
        &&& MIN_ESCROW_AMOUNT <= self.amount <= MAX_ESCROW_AMOUNT
        &&& MIN_TIME_LOCK <= self.expires_at - self.created_at <= MAX_TIME_LOCK
        &&& valid_transaction_id(self.transaction_id@)
        &&& (self.status == EscrowStatus::Resolved) == self.quality_score.is_some()
        &&& (self.status == EscrowStatus::Resolved) == self.refund_percentage.is_some()
        &&& (self.quality_score matches Some(q) ==> q <= 100)
        &&& (self.refund_percentage matches Some(r) ==> r <= 100)
    }

    /// No operation leaves a terminal escrow.
    pub open spec fn is_terminal(&self) -> bool {
        self.status == EscrowStatus::Released || self.status == EscrowStatus::Resolved
    }
}

/// The history of one entity over all its escrows.
#[derive(Clone, Copy, Debug, PartialEq, Eq)]
pub struct EntityReputation {
    pub entity: Address,
    pub entity_type: EntityType,
    /// Resolutions the entity took part in.
    pub total_transactions: u64,
    pub disputes_filed: u64,
    pub disputes_won: u64,
    pub disputes_partial: u64,
    pub disputes_lost: u64,
    /// The running mean of the quality received, 0 to 100.
    pub average_quality_received: u8,
    /// The derived score, 0 to 1000.
    pub reputation_score: u16,
    pub created_at: i64,
    pub last_updated: i64,
    pub bump: u8,
}

/// The usage of one entity in the current hour and day.
#[derive(Clone, Copy, Debug, PartialEq, Eq)]
pub struct RateLimiter {
    pub entity: Address,
    pub verification_level: VerificationLevel,
    pub transactions_last_hour: u16,
    pub transactions_last_day: u16,
    pub disputes_last_day: u16,
    /// The hour bucket the hourly counter belongs to.
    pub last_hour_check: i64,
    /// The day bucket the daily counters belong to.
    pub last_day_check: i64,
    pub bump: u8,
}

/// The agreed scope of a piece of work. No operation reads or writes it yet.
#[derive(Clone, Debug, PartialEq, Eq)]
pub struct WorkAgreement {
    pub escrow: Address,
    pub query: String,
    pub required_fields: u8,
    pub min_records: u32,
    pub max_age_days: u32,
    pub min_quality_score: u8,
    pub created_at: i64,
    pub bump: u8,
}

/// Strikes and suspensions of a provider. No operation reads or writes it yet.
#[derive(Clone, Copy, Debug, PartialEq, Eq)]
pub struct ProviderPenalties {
    pub provider: Address,
    pub strike_count: u8,
    pub suspended: bool,
    pub suspension_end: Option<i64>,
    pub total_refunds_issued: u64,
    pub poor_quality_count: u32,
    pub created_at: i64,
    pub last_updated: i64,
    pub bump: u8,
}

} // verus!
