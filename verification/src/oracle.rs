//! The oracle attestation reader: a quality score published by a pull feed
//! of the oracle network, as the second source of trust beside a signature.

use vstd::prelude::*;

use crate::error::EscrowError;
use switchboard_on_demand::on_demand::accounts::pull_feed::PullFeedAccountData;

verus! {

/// The greatest age, in seconds, at which an attestation is still accepted.
pub const MAX_ATTESTATION_AGE: i64 = 300;

/// What the engine reads from a feed: the published value and when it was
/// last updated.
#[derive(Clone, Copy, Debug, PartialEq, Eq)]
pub struct OracleReading {
    pub value: i128,
    pub last_update_timestamp: i64,
}

/// The eight bytes with which the data of every pull feed account starts.
pub open spec fn pull_feed_discriminator() -> Seq<u8> {
    seq![196u8, 27, 108, 196, 10, 215, 219, 40]
}

/// Whether the data starts as the data of a pull feed account does.
pub open spec fn starts_as_pull_feed(data: Seq<u8>) -> bool {
    data.len() >= 8 && data.subrange(0, 8) == pull_feed_discriminator()
}

/// The age of a reading at `now`, in seconds; negative for a reading dated
/// in the future.
pub open spec fn attestation_age(reading: OracleReading, now: i64) -> int {
    now - reading.last_update_timestamp
}

/// A reading is fresh from the second of its update until 300 seconds later,
/// both included.
pub open spec fn is_fresh(reading: OracleReading, now: i64) -> bool {
    0 <= attestation_age(reading, now) <= MAX_ATTESTATION_AGE
}

/// What the engine makes of a feed: unreadable, stale, publishing another
/// value than the one submitted, or vouching for it.
pub open spec fn attestation_verdict(
    reading: Option<OracleReading>,
    now: i64,
    quality_score: u8,
) -> Result<(), EscrowError> {
    match reading {
        None => Err(EscrowError::InvalidSwitchboardAttestation),
        Some(reading) => if !is_fresh(reading, now) {
            Err(EscrowError::StaleAttestation)
        } else if reading.value != quality_score {
            Err(EscrowError::QualityScoreMismatch)
        } else {
            Ok(())
        },
    }
}

/// Parses the data of a feed account with `PullFeedAccountData::parse` and
/// takes the published value and the time of the last update from it.
///
/// The parser refuses data that is shorter than the eight-byte discriminator
/// or starts with other bytes, and that is all the contract states. Whether
/// it accepts longer data depends on the record's size and on where the
/// bytes lie in memory, so nothing is promised of it. The copy is laid out
/// behind eight spare bytes, which puts the record itself on the boundary
/// that the usual allocators give.
#[verifier::external_body]
pub(crate) fn read_pull_feed(data: &[u8]) -> (reading: Option<OracleReading>)
    ensures
        reading.is_some() ==> starts_as_pull_feed(data@),
{
    let mut buffer: Vec<u8> = vec![0u8; 8];
    buffer.extend_from_slice(data);
    let cell = std::cell::RefCell::new(&mut buffer[8..]);
    let reading = match PullFeedAccountData::parse(cell.borrow()) {
        Ok(feed) => Some(
            OracleReading {
                value: feed.result.value,
                last_update_timestamp: feed.last_update_timestamp,
            },
        ),
        Err(_) => None,
    };
    reading
}

/// Decides whether a reading vouches for `quality_score` at `now`.
///
/// A missing reading is an invalid attestation. One that is older than 300
/// seconds, or dated after `now`, is stale. One that publishes another value
/// than `quality_score` is a mismatch.
pub fn check_attestation(reading: Option<OracleReading>, now: i64, quality_score: u8) -> (r: Result<
    (),
    EscrowError,
>)
    ensures
        r == attestation_verdict(reading, now, quality_score),
{
    let reading = match reading {
        Some(reading) => reading,
        None => { return Err(EscrowError::InvalidSwitchboardAttestation); },
    };
    let age: i128 = (now as i128) - (reading.last_update_timestamp as i128);
    if age < 0 || age > (MAX_ATTESTATION_AGE as i128) {
        return Err(EscrowError::StaleAttestation);
    }
    if reading.value != (quality_score as i128) {
        return Err(EscrowError::QualityScoreMismatch);
    }
    Ok(())
}

/// A reading is accepted at the ages 0 and 300 and at every age in between,
/// and refused one second before and one second after: dated in the future
/// or 301 seconds old, it is stale whatever it publishes.
pub proof fn lemma_freshness_window(reading: OracleReading, now: i64, quality_score: u8)
    ensures
        attestation_age(reading, now) == 0 ==> is_fresh(reading, now),
        attestation_age(reading, now) == 300 ==> is_fresh(reading, now),
        attestation_age(reading, now) < 0 ==> attestation_verdict(
            Some(reading),
            now,
            quality_score,
        ) == Err::<(), EscrowError>(EscrowError::StaleAttestation),
        attestation_age(reading, now) > 300 ==> attestation_verdict(
            Some(reading),
            now,
            quality_score,
        ) == Err::<(), EscrowError>(EscrowError::StaleAttestation),
        is_fresh(reading, now) ==> (attestation_verdict(Some(reading), now, quality_score).is_ok()
            <==> reading.value == quality_score),
{
}

} // verus!
