//! Commitment-based identity proofs.
//!
//! Simplified sigma-protocol shape over the FNV-1a fingerprint:
//! commit to a secret, answer a challenge, check the answer against the
//! commitment. Not cryptography; a deterministic consistency check.

use vstd::prelude::*;
use crate::hash::{fnv1a, spec_fnv1a};
use vstd::bytes::{spec_u64_to_le_bytes, u64_to_le_bytes};

verus! {

/// Hash of two 64-bit words: FNV-1a over their little-endian bytes in order.
pub open spec fn spec_pair_hash(a: u64, b: u64) -> u64 {
    spec_fnv1a(spec_u64_to_le_bytes(a) + spec_u64_to_le_bytes(b))
}

/// Hash a pair of 64-bit words, `H(a || b)` with little-endian encoding.
fn hash_u64_pair(a: u64, b: u64) -> (h: u64)
    ensures
        h == spec_pair_hash(a, b),
{
    let mut buf = u64_to_le_bytes(a);
    let mut tail = u64_to_le_bytes(b);
    buf.append(&mut tail);
    fnv1a(buf.as_slice())
}

/// Identity commitment: `commitment_hash = H(secret || nonce)`.
#[derive(Debug, Clone, Copy, PartialEq, Eq, Structural)]
pub struct IdentityCommitment {
    /// `H(secret || nonce)`.
    pub commitment_hash: u64,
    pub nonce: u64,
    pub timestamp_ns: u64,
}

/// The commitment that `IdentityCommitment::new` builds.
pub open spec fn spec_new_commitment(secret: u64, nonce: u64, timestamp_ns: u64)
    -> IdentityCommitment {
    IdentityCommitment { commitment_hash: spec_pair_hash(secret, nonce), nonce, timestamp_ns }
}

impl IdentityCommitment {
    /// Create a commitment from a secret key and nonce.
    pub fn new(secret: u64, nonce: u64, timestamp_ns: u64) -> (c: IdentityCommitment)
        ensures
            c == spec_new_commitment(secret, nonce, timestamp_ns),
    {
        let commitment_hash = hash_u64_pair(secret, nonce);
        IdentityCommitment { commitment_hash, nonce, timestamp_ns }
    }

    /// Verify that a given secret matches this commitment: true exactly when
    /// `H(secret || self.nonce)` equals the stored commitment hash.
    pub fn verify(&self, secret: u64) -> (ok: bool)
        ensures
            ok == (spec_pair_hash(secret, self.nonce) == self.commitment_hash),
    {
        hash_u64_pair(secret, self.nonce) == self.commitment_hash
    }
}

/// A commitment always accepts the secret it was built from.
pub proof fn lemma_commitment_accepts_its_secret(secret: u64, nonce: u64, timestamp_ns: u64)
    ensures
        spec_new_commitment(secret, nonce, timestamp_ns).commitment_hash == spec_pair_hash(
            secret,
            nonce,
        ),
{
}

/// Proof of identity: response to a challenge, checked against a commitment.
#[derive(Debug, Clone, Copy, PartialEq, Eq, Structural)]
pub struct ZkProof {
    /// Verifier's challenge.
    pub challenge: u64,
    /// Prover's response: `H(secret || challenge)`.
    pub response: u64,
    /// Original commitment hash.
    pub commitment: u64,
    /// Whether the prover's secret matched the commitment.
    pub verified: bool,
}

/// The proof that `ZkProof::prove` builds.
pub open spec fn spec_zk_prove(secret: u64, commitment: IdentityCommitment, challenge: u64)
    -> ZkProof {
    ZkProof {
        challenge,
        response: spec_pair_hash(secret, challenge),
        commitment: commitment.commitment_hash,
        verified: spec_pair_hash(secret, commitment.nonce) == commitment.commitment_hash,
    }
}

impl ZkProof {
    /// Produce a proof: `response = H(secret || challenge)`, with `verified`
    /// set exactly when the commitment matches `H(secret || nonce)`.
    pub fn prove(secret: u64, commitment: &IdentityCommitment, challenge: u64) -> (p: ZkProof)
        ensures
            p == spec_zk_prove(secret, *commitment, challenge),
    {
        let response = hash_u64_pair(secret, challenge);
        let verified = commitment.verify(secret);
        ZkProof { challenge, response, commitment: commitment.commitment_hash, verified }
    }

    /// Structural verification: all fields are non-zero.
    pub fn verify_structure(&self) -> (ok: bool)
        ensures
            ok == (self.response != 0 && self.commitment != 0 && self.challenge != 0),
    {
        self.response != 0 && self.commitment != 0 && self.challenge != 0
    }
}

/// Proving with the secret a commitment was built from always yields a proof
/// marked `verified`.
pub proof fn lemma_prove_with_genuine_secret_verifies(
    secret: u64,
    nonce: u64,
    timestamp_ns: u64,
    challenge: u64,
)
    ensures
        spec_zk_prove(secret, spec_new_commitment(secret, nonce, timestamp_ns), challenge).verified,
{
}

} // verus!
