//! Presence events, proximity proofs, and crossing records.
//!
//! A presence event is a fixed 18-byte record for peer-to-peer sync:
//! `[event_type: u8][flags: u8][party_a_id: u32 LE][party_b_id: u32 LE][timestamp: u64 LE]`.
//! A crossing record bundles an event with two identity proofs and a
//! proximity proof under one content hash.

use vstd::prelude::*;
use crate::hash::{fnv1a, spec_fnv1a};
use crate::coord::{CoordBits, spec_coord_fingerprint};
use crate::identity::ZkProof;
use crate::query::spec_ordered_key;
use vstd::bytes::{
    spec_u32_to_le_bytes,
    spec_u32_from_le_bytes,
    spec_u64_to_le_bytes,
    spec_u64_from_le_bytes,
    u32_to_le_bytes,
    u32_from_le_bytes,
    u64_to_le_bytes,
    u64_from_le_bytes,
    lemma_auto_spec_u32_to_from_le_bytes,
    lemma_auto_spec_u64_to_from_le_bytes,
};

verus! {

/// Flag bit marking a mutually confirmed crossing.
pub const FLAG_MUTUAL: u8 = 0x01;

/// Flag bit marking a crossing whose identity proofs verified.
pub const FLAG_VERIFIED: u8 = 0x02;

/// Flag bit marking a crossing within the proximity threshold.
pub const FLAG_PROXIMATE: u8 = 0x04;

/// Whether a flag bit is set in a flags byte.
pub open spec fn spec_flag_set(flags: u8, mask: u8) -> bool {
    flags & mask != 0
}

/// Minimal 18-byte presence event for peer-to-peer sync.
///
/// Wire layout: `[event_type: u8][flags: u8][party_a_id: u32 LE][party_b_id: u32 LE][timestamp: u64 LE]`
#[derive(Debug, Clone, Copy, PartialEq, Eq, Structural)]
pub struct PresenceEvent {
    /// 0x50 = 'P' for Presence.
    pub event_type: u8,
    /// bit 0: mutual, bit 1: verified, bit 2: proximate.
    pub flags: u8,
    /// Compact ID for party A.
    pub party_a_id: u32,
    /// Compact ID for party B.
    pub party_b_id: u32,
    /// Nanosecond timestamp of the crossing.
    pub timestamp_ns: u64,
}

/// The 18 wire bytes of an event.
pub open spec fn spec_event_bytes(e: PresenceEvent) -> Seq<u8> {
    seq![e.event_type, e.flags] + spec_u32_to_le_bytes(e.party_a_id) + spec_u32_to_le_bytes(
        e.party_b_id,
    ) + spec_u64_to_le_bytes(e.timestamp_ns)
}

/// The event that 18 wire bytes decode to.
pub open spec fn spec_event_from_bytes(s: Seq<u8>) -> PresenceEvent
    recommends
        s.len() == 18,
{
    PresenceEvent {
        event_type: s[0],
        flags: s[1],
        party_a_id: spec_u32_from_le_bytes(s.subrange(2, 6)),
        party_b_id: spec_u32_from_le_bytes(s.subrange(6, 10)),
        timestamp_ns: spec_u64_from_le_bytes(s.subrange(10, 18)),
    }
}

impl PresenceEvent {
    /// Create a new presence event with default flags.
    pub fn new(party_a_id: u32, party_b_id: u32, timestamp_ns: u64) -> (e: PresenceEvent)
        ensures
            e == (PresenceEvent {
                event_type: 0x50u8,
                flags: 0u8,
                party_a_id,
                party_b_id,
                timestamp_ns,
            }),
    {
        PresenceEvent { event_type: 0x50, flags: 0, party_a_id, party_b_id, timestamp_ns }
    }

    /// Set the mutual flag; the other flag bits are untouched.
    pub fn set_mutual(&mut self)
        ensures
            final(self).flags == (old(self).flags | FLAG_MUTUAL),
            spec_flag_set(final(self).flags, FLAG_MUTUAL),
            spec_flag_set(final(self).flags, FLAG_VERIFIED) == spec_flag_set(
                old(self).flags,
                FLAG_VERIFIED,
            ),
            spec_flag_set(final(self).flags, FLAG_PROXIMATE) == spec_flag_set(
                old(self).flags,
                FLAG_PROXIMATE,
            ),
            final(self).event_type == old(self).event_type,
            final(self).party_a_id == old(self).party_a_id,
            final(self).party_b_id == old(self).party_b_id,
            final(self).timestamp_ns == old(self).timestamp_ns,
    {
        proof {
            let f = self.flags;
            assert((f | 0x01u8) & 0x01u8 != 0 && (f | 0x01u8) & 0x02u8 == f & 0x02u8 && (f
                | 0x01u8) & 0x04u8 == f & 0x04u8) by (bit_vector);
        }
        self.flags = self.flags | FLAG_MUTUAL;
    }

    /// Set the verified flag; the other flag bits are untouched.
    pub fn set_verified(&mut self)
        ensures
            final(self).flags == (old(self).flags | FLAG_VERIFIED),
            spec_flag_set(final(self).flags, FLAG_VERIFIED),
            spec_flag_set(final(self).flags, FLAG_MUTUAL) == spec_flag_set(
                old(self).flags,
                FLAG_MUTUAL,
            ),
            spec_flag_set(final(self).flags, FLAG_PROXIMATE) == spec_flag_set(
                old(self).flags,
                FLAG_PROXIMATE,
            ),
            final(self).event_type == old(self).event_type,
            final(self).party_a_id == old(self).party_a_id,
            final(self).party_b_id == old(self).party_b_id,
            final(self).timestamp_ns == old(self).timestamp_ns,
    {
        proof {
            let f = self.flags;
            assert((f | 0x02u8) & 0x02u8 != 0 && (f | 0x02u8) & 0x01u8 == f & 0x01u8 && (f
                | 0x02u8) & 0x04u8 == f & 0x04u8) by (bit_vector);
        }
        self.flags = self.flags | FLAG_VERIFIED;
    }

    /// Set the proximate flag; the other flag bits are untouched.
    pub fn set_proximate(&mut self)
        ensures
            final(self).flags == (old(self).flags | FLAG_PROXIMATE),
            spec_flag_set(final(self).flags, FLAG_PROXIMATE),
            spec_flag_set(final(self).flags, FLAG_MUTUAL) == spec_flag_set(
                old(self).flags,
                FLAG_MUTUAL,
            ),
            spec_flag_set(final(self).flags, FLAG_VERIFIED) == spec_flag_set(
                old(self).flags,
                FLAG_VERIFIED,
            ),
            final(self).event_type == old(self).event_type,
            final(self).party_a_id == old(self).party_a_id,
            final(self).party_b_id == old(self).party_b_id,
            final(self).timestamp_ns == old(self).timestamp_ns,
    {
        proof {
            let f = self.flags;
            assert((f | 0x04u8) & 0x04u8 != 0 && (f | 0x04u8) & 0x01u8 == f & 0x01u8 && (f
                | 0x04u8) & 0x02u8 == f & 0x02u8) by (bit_vector);
        }
        self.flags = self.flags | FLAG_PROXIMATE;
    }

    /// Is the mutual flag set?
    pub fn is_mutual(&self) -> (b: bool)
        ensures
            b == spec_flag_set(self.flags, FLAG_MUTUAL),
    {
        self.flags & FLAG_MUTUAL != 0
    }

    /// Is the verified flag set?
    pub fn is_verified(&self) -> (b: bool)
        ensures
            b == spec_flag_set(self.flags, FLAG_VERIFIED),
    {
        self.flags & FLAG_VERIFIED != 0
    }

    /// Is the proximate flag set?
    pub fn is_proximate(&self) -> (b: bool)
        ensures
            b == spec_flag_set(self.flags, FLAG_PROXIMATE),
    {
        self.flags & FLAG_PROXIMATE != 0
    }

    /// Serialize to exactly 18 bytes.
    pub fn to_bytes(&self) -> (out: [u8; 18])
        ensures
            out@ == spec_event_bytes(*self),
    {
        let a = u32_to_le_bytes(self.party_a_id);
        let b = u32_to_le_bytes(self.party_b_id);
        let t = u64_to_le_bytes(self.timestamp_ns);
        let out: [u8; 18] = [
            self.event_type,
            self.flags,
            a[0],
            a[1],
            a[2],
            a[3],
            b[0],
            b[1],
            b[2],
            b[3],
            t[0],
            t[1],
            t[2],
            t[3],
            t[4],
            t[5],
            t[6],
            t[7],
        ];
        proof {
            assert(out@ =~= spec_event_bytes(*self));
        }
        out
    }

    /// Deserialize from exactly 18 bytes.
    pub fn from_bytes(bytes: &[u8; 18]) -> (e: PresenceEvent)
        ensures
            e == spec_event_from_bytes(bytes@),
    {
        let s = bytes.as_slice();
        let event_type = s[0];
        let flags = s[1];
        let party_a_id = u32_from_le_bytes(&s[2..6]);
        let party_b_id = u32_from_le_bytes(&s[6..10]);
        let timestamp_ns = u64_from_le_bytes(&s[10..18]);
        PresenceEvent { event_type, flags, party_a_id, party_b_id, timestamp_ns }
    }

    /// Wire size (always 18).
    pub fn byte_size() -> (n: usize)
        ensures
            n == 18,
    {
        18
    }
}

/// The 64-bit word an outcome flag is hashed as.
pub open spec fn spec_bool_word(b: bool) -> u64 {
    if b {
        1u64
    } else {
        0u64
    }
}

/// Evidence that two coordinates are within a threshold distance.
///
/// The distance and threshold are real values computed by the caller's
/// geometry; here they appear as their IEEE-754 bit patterns, which is
/// exactly what the content hash covers.
#[derive(Debug, Clone, Copy, PartialEq, Eq, Structural)]
pub struct ProximityProof {
    /// Bit pattern of the measured distance between the two parties.
    pub distance_bits: u64,
    /// Bit pattern of the maximum distance for "proximity".
    pub threshold_bits: u64,
    /// Whether the measured distance was within the threshold.
    pub is_proximate: bool,
    /// Hash of party A's coordinate (privacy).
    pub coord_hash_a: u64,
    /// Hash of party B's coordinate (privacy).
    pub coord_hash_b: u64,
    /// Hash of the entire proof payload.
    pub content_hash: u64,
}

/// Content hash of a proximity proof: FNV-1a over distance, threshold,
/// both coordinate hashes, and the outcome word, little-endian each.
pub open spec fn spec_proximity_hash(
    distance_bits: u64,
    threshold_bits: u64,
    coord_hash_a: u64,
    coord_hash_b: u64,
    is_proximate: bool,
) -> u64 {
    spec_fnv1a(
        spec_u64_to_le_bytes(distance_bits) + spec_u64_to_le_bytes(threshold_bits)
            + spec_u64_to_le_bytes(coord_hash_a) + spec_u64_to_le_bytes(coord_hash_b)
            + spec_u64_to_le_bytes(spec_bool_word(is_proximate)),
    )
}

/// The proof that `ProximityProof::prove` builds.
pub open spec fn spec_proximity_proof(
    coord_a: CoordBits,
    coord_b: CoordBits,
    distance_bits: u64,
    threshold_bits: u64,
    is_proximate: bool,
) -> ProximityProof {
    ProximityProof {
        distance_bits,
        threshold_bits,
        is_proximate,
        coord_hash_a: spec_coord_fingerprint(coord_a),
        coord_hash_b: spec_coord_fingerprint(coord_b),
        content_hash: spec_proximity_hash(
            distance_bits,
            threshold_bits,
            spec_coord_fingerprint(coord_a),
            spec_coord_fingerprint(coord_b),
            is_proximate,
        ),
    }
}

impl ProximityProof {
    /// Assemble a proximity proof between two coordinates.
    ///
    /// The caller's geometry supplies the measured distance, the threshold,
    /// and their comparison (`is_proximate`, distance within threshold); this
    /// function fixes the coordinate hashes and the content hash over them.
    /// Whenever both values are non-negative and not NaN — every value the
    /// distance model produces — their order is the unsigned order of their
    /// bit patterns, so on that domain the outcome is pinned to the key
    /// comparison; only a NaN or negative input leaves it to the caller's
    /// own comparison.
    pub fn prove(
        coord_a: &CoordBits,
        coord_b: &CoordBits,
        distance_bits: u64,
        threshold_bits: u64,
        is_proximate: bool,
    ) -> (p: ProximityProof)
        requires
            spec_ordered_key(distance_bits) && spec_ordered_key(threshold_bits)
                ==> is_proximate == (distance_bits <= threshold_bits),
        ensures
            p == spec_proximity_proof(
                *coord_a,
                *coord_b,
                distance_bits,
                threshold_bits,
                is_proximate,
            ),
    {
        let coord_hash_a = coord_a.hash();
        let coord_hash_b = coord_b.hash();
        let outcome: u64 = if is_proximate {
            1
        } else {
            0
        };

        let mut buf = u64_to_le_bytes(distance_bits);
        let mut part = u64_to_le_bytes(threshold_bits);
        buf.append(&mut part);
        let mut part = u64_to_le_bytes(coord_hash_a);
        buf.append(&mut part);
        let mut part = u64_to_le_bytes(coord_hash_b);
        buf.append(&mut part);
        let mut part = u64_to_le_bytes(outcome);
        buf.append(&mut part);
        let content_hash = fnv1a(buf.as_slice());

        ProximityProof {
            distance_bits,
            threshold_bits,
            is_proximate,
            coord_hash_a,
            coord_hash_b,
            content_hash,
        }
    }
}

/// Crossing status, derived from how far a record's evidence goes.
#[derive(Debug, Clone, Copy, PartialEq, Eq, Structural)]
pub enum CrossingStatus {
    /// One party started.
    Initiated,
    /// Both parties confirmed.
    Mutual,
    /// Identity proofs verified on both sides.
    Verified,
    /// Written to permanent store.
    Recorded,
    /// One party revoked.
    Revoked,
}

/// Permanent crossing record: the full record stored for a crossing.
#[derive(Debug, Clone, Copy, PartialEq, Eq, Structural)]
pub struct CrossingRecord {
    pub event: PresenceEvent,
    /// Party A's identity proof.
    pub proof_a: ZkProof,
    /// Party B's identity proof.
    pub proof_b: ZkProof,
    pub proximity: ProximityProof,
    /// Hash of the entire record.
    pub content_hash: u64,
}

/// Content hash of a crossing record: FNV-1a over the event bytes, both
/// proof responses, and the proximity proof's hash and distance.
pub open spec fn spec_record_hash(
    event: PresenceEvent,
    proof_a: ZkProof,
    proof_b: ZkProof,
    proximity: ProximityProof,
) -> u64 {
    spec_fnv1a(
        spec_event_bytes(event) + spec_u64_to_le_bytes(proof_a.response) + spec_u64_to_le_bytes(
            proof_b.response,
        ) + spec_u64_to_le_bytes(proximity.content_hash) + spec_u64_to_le_bytes(
            proximity.distance_bits,
        ),
    )
}

/// The status a record reports, from its flags and proof outcomes.
pub open spec fn spec_record_status(r: CrossingRecord) -> CrossingStatus {
    if !spec_flag_set(r.event.flags, FLAG_MUTUAL) {
        CrossingStatus::Initiated
    } else if !r.proof_a.verified || !r.proof_b.verified {
        CrossingStatus::Mutual
    } else if !spec_flag_set(r.event.flags, FLAG_VERIFIED) {
        CrossingStatus::Verified
    } else {
        CrossingStatus::Recorded
    }
}

impl CrossingRecord {
    /// Build a full crossing record from component proofs.
    pub fn new(
        event: PresenceEvent,
        proof_a: ZkProof,
        proof_b: ZkProof,
        proximity: ProximityProof,
    ) -> (r: CrossingRecord)
        ensures
            r == (CrossingRecord {
                event,
                proof_a,
                proof_b,
                proximity,
                content_hash: spec_record_hash(event, proof_a, proof_b, proximity),
            }),
    {
        let ev_bytes = event.to_bytes();
        let mut buf: Vec<u8> = Vec::new();
        buf.extend_from_slice(ev_bytes.as_slice());
        let mut part = u64_to_le_bytes(proof_a.response);
        buf.append(&mut part);
        let mut part = u64_to_le_bytes(proof_b.response);
        buf.append(&mut part);
        let mut part = u64_to_le_bytes(proximity.content_hash);
        buf.append(&mut part);
        let mut part = u64_to_le_bytes(proximity.distance_bits);
        buf.append(&mut part);
        proof {
            assert(buf@ =~= spec_event_bytes(event) + spec_u64_to_le_bytes(proof_a.response)
                + spec_u64_to_le_bytes(proof_b.response) + spec_u64_to_le_bytes(
                proximity.content_hash,
            ) + spec_u64_to_le_bytes(proximity.distance_bits));
        }
        let content_hash = fnv1a(buf.as_slice());

        CrossingRecord { event, proof_a, proof_b, proximity, content_hash }
    }

    /// Fully verified: both identity proofs verified and proximity confirmed.
    pub fn is_fully_verified(&self) -> (ok: bool)
        ensures
            ok == (self.proof_a.verified && self.proof_b.verified && self.proximity.is_proximate),
    {
        self.proof_a.verified && self.proof_b.verified && self.proximity.is_proximate
    }

    /// Derive the crossing status from the current state of the record.
    pub fn status(&self) -> (s: CrossingStatus)
        ensures
            s == spec_record_status(*self),
    {
        if !self.event.is_mutual() {
            return CrossingStatus::Initiated;
        }
        if !self.proof_a.verified || !self.proof_b.verified {
            return CrossingStatus::Mutual;
        }
        if !self.event.is_verified() {
            return CrossingStatus::Verified;
        }
        CrossingStatus::Recorded
    }
}

/// Decoding the wire bytes of an event gives the event back.
pub proof fn lemma_event_round_trip(e: PresenceEvent)
    ensures
        spec_event_from_bytes(spec_event_bytes(e)) == e,
{
    lemma_auto_spec_u32_to_from_le_bytes();
    lemma_auto_spec_u64_to_from_le_bytes();
    let s = spec_event_bytes(e);
    assert(s.subrange(2, 6) =~= spec_u32_to_le_bytes(e.party_a_id));
    assert(s.subrange(6, 10) =~= spec_u32_to_le_bytes(e.party_b_id));
    assert(s.subrange(10, 18) =~= spec_u64_to_le_bytes(e.timestamp_ns));
}

/// Re-encoding a decoded 18-byte record gives the same bytes back.
pub proof fn lemma_event_bytes_round_trip(s: Seq<u8>)
    requires
        s.len() == 18,
    ensures
        spec_event_bytes(spec_event_from_bytes(s)) == s,
{
    lemma_auto_spec_u32_to_from_le_bytes();
    lemma_auto_spec_u64_to_from_le_bytes();
    let e = spec_event_from_bytes(s);
    assert(spec_event_bytes(e) =~= s);
}

} // verus!
