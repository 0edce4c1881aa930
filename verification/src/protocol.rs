//! Full presence protocol execution.
//!
//! Orchestrates the identity exchange and crossing-record creation between
//! two parties once their proximity has been established. The proximity
//! check itself is floating-point geometry done by the caller, handed in as
//! a finished `ProximityProof`.

use vstd::prelude::*;
use crate::coord::CoordBits;
use crate::event::{CrossingRecord, PresenceEvent, ProximityProof, spec_record_hash};
use crate::hash::{fnv1a, spec_fnv1a};
use crate::identity::{IdentityCommitment, ZkProof, spec_new_commitment, spec_zk_prove};
use vstd::bytes::{spec_u32_to_le_bytes, spec_u64_to_le_bytes, u32_to_le_bytes, u64_to_le_bytes};

verus! {

/// Challenge mask for party A.
pub const CHALLENGE_MASK_A: u64 = 0xAAAA_AAAA_AAAA_AAAA;

/// Challenge mask for party B.
pub const CHALLENGE_MASK_B: u64 = 0x5555_5555_5555_5555;

/// Protocol configuration.
#[derive(Debug, Clone, Copy, PartialEq, Eq, Structural)]
pub struct PresenceConfig {
    /// Bit pattern of the distance threshold (default 10.0).
    pub proximity_threshold_bits: u64,
    /// Challenge size in bits (default 64).
    pub challenge_bits: u32,
    /// Both parties must confirm (default true).
    pub require_mutual: bool,
}

impl Default for PresenceConfig {
    /// Defaults: threshold 10.0 (as its bit pattern), 64 challenge bits,
    /// mutual confirmation required.
    fn default() -> (c: PresenceConfig)
        ensures
            c == (PresenceConfig {
                proximity_threshold_bits: 0x4024_0000_0000_0000u64,
                challenge_bits: 64u32,
                require_mutual: true,
            }),
    {
        PresenceConfig {
            proximity_threshold_bits: 0x4024_0000_0000_0000,
            challenge_bits: 64,
            require_mutual: true,
        }
    }
}

/// Identity and location information for one party in a presence exchange.
#[derive(Debug, Clone, Copy, PartialEq, Eq, Structural)]
pub struct PartyInfo {
    /// Coordinate, as component bit patterns.
    pub coord: CoordBits,
    /// Secret used for the identity commitment.
    pub secret: u64,
    /// Compact 32-bit party identifier.
    pub id: u32,
}

impl PartyInfo {
    /// Create a new `PartyInfo`.
    pub fn new(coord: CoordBits, secret: u64, id: u32) -> (p: PartyInfo)
        ensures
            p == (PartyInfo { coord, secret, id }),
    {
        PartyInfo { coord, secret, id }
    }
}

/// Nonce a party derives from its identifier.
pub open spec fn spec_party_nonce(id: u32) -> u64 {
    spec_fnv1a(spec_u32_to_le_bytes(id))
}

/// Challenge base derived from the timestamp.
pub open spec fn spec_challenge_base(timestamp_ns: u64) -> u64 {
    spec_fnv1a(spec_u64_to_le_bytes(timestamp_ns))
}

/// The identity proof a party produces in the exchange; `mask` tells the
/// two parties' challenges apart.
pub open spec fn spec_party_proof(party: PartyInfo, timestamp_ns: u64, mask: u64) -> ZkProof {
    spec_zk_prove(
        party.secret,
        spec_new_commitment(party.secret, spec_party_nonce(party.id), timestamp_ns),
        spec_challenge_base(timestamp_ns) ^ mask,
    )
}

/// The flags byte of the event the protocol emits.
pub open spec fn spec_protocol_flags(
    require_mutual: bool,
    both_verified: bool,
    is_proximate: bool,
) -> u8 {
    let f0: u8 = 0;
    let f1: u8 = if require_mutual {
        f0 | 0x01
    } else {
        f0
    };
    let f2: u8 = if both_verified {
        f1 | 0x02
    } else {
        f1
    };
    if is_proximate {
        f2 | 0x04
    } else {
        f2
    }
}

/// The event the protocol emits for a proximate crossing.
pub open spec fn spec_protocol_event(
    party_a: PartyInfo,
    party_b: PartyInfo,
    timestamp_ns: u64,
    config: PresenceConfig,
    proof_a: ZkProof,
    proof_b: ZkProof,
) -> PresenceEvent {
    PresenceEvent {
        event_type: 0x50u8,
        flags: spec_protocol_flags(config.require_mutual, proof_a.verified && proof_b.verified, true),
        party_a_id: party_a.id,
        party_b_id: party_b.id,
        timestamp_ns,
    }
}

/// The record the protocol produces for a proximate crossing.
pub open spec fn spec_protocol_record(
    party_a: PartyInfo,
    party_b: PartyInfo,
    timestamp_ns: u64,
    config: PresenceConfig,
    proximity: ProximityProof,
) -> CrossingRecord {
    let proof_a = spec_party_proof(party_a, timestamp_ns, CHALLENGE_MASK_A);
    let proof_b = spec_party_proof(party_b, timestamp_ns, CHALLENGE_MASK_B);
    let event = spec_protocol_event(party_a, party_b, timestamp_ns, config, proof_a, proof_b);
    CrossingRecord {
        event,
        proof_a,
        proof_b,
        proximity,
        content_hash: spec_record_hash(event, proof_a, proof_b, proximity),
    }
}

/// Derive a party's nonce from its identifier.
fn party_nonce(id: u32) -> (n: u64)
    ensures
        n == spec_party_nonce(id),
{
    let buf = u32_to_le_bytes(id);
    fnv1a(buf.as_slice())
}

/// Derive the challenge base from the timestamp.
fn challenge_base(timestamp_ns: u64) -> (c: u64)
    ensures
        c == spec_challenge_base(timestamp_ns),
{
    let buf = u64_to_le_bytes(timestamp_ns);
    fnv1a(buf.as_slice())
}

/// Execute the presence protocol between two parties whose proximity has
/// already been measured.
///
/// 1. Reject the crossing unless the proximity proof says the parties were
///    within threshold.
/// 2. Exchange identity proofs, with deterministic nonces and challenges.
/// 3. Create the minimal presence event.
/// 4. Build the full crossing record.
///
/// Returns `None` exactly when `proximity.is_proximate` is false.
pub fn execute_presence_protocol(
    party_a: &PartyInfo,
    party_b: &PartyInfo,
    timestamp_ns: u64,
    config: &PresenceConfig,
    proximity: ProximityProof,
) -> (r: Option<CrossingRecord>)
    ensures
        r is Some <==> proximity.is_proximate,
        r matches Some(record) ==> record == spec_protocol_record(
            *party_a,
            *party_b,
            timestamp_ns,
            *config,
            proximity,
        ),
{
    if !proximity.is_proximate {
        return None;
    }

    let nonce_a = party_nonce(party_a.id);
    let nonce_b = party_nonce(party_b.id);
    let commitment_a = IdentityCommitment::new(party_a.secret, nonce_a, timestamp_ns);
    let commitment_b = IdentityCommitment::new(party_b.secret, nonce_b, timestamp_ns);

    let base = challenge_base(timestamp_ns);
    let challenge_a = base ^ CHALLENGE_MASK_A;
    let challenge_b = base ^ CHALLENGE_MASK_B;

    let proof_a = ZkProof::prove(party_a.secret, &commitment_a, challenge_a);
    let proof_b = ZkProof::prove(party_b.secret, &commitment_b, challenge_b);

    let mut event = PresenceEvent::new(party_a.id, party_b.id, timestamp_ns);
    if config.require_mutual {
        event.set_mutual();
    }
    if proof_a.verified && proof_b.verified {
        event.set_verified();
    }
    if proximity.is_proximate {
        event.set_proximate();
    }

    Some(CrossingRecord::new(event, proof_a, proof_b, proximity))
}

} // verus!
