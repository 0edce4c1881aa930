//! FNV-1a 64-bit hashing, the deterministic fingerprint primitive used by
//! every content hash in this crate.

use vstd::prelude::*;

verus! {

/// FNV-1a 64-bit offset basis; also the hash of the empty byte sequence.
pub const FNV_OFFSET: u64 = 0xcbf29ce484222325;

/// FNV-1a 64-bit prime.
pub const FNV_PRIME: u64 = 0x00000100000001B3;

/// One FNV-1a round: fold a byte into the running hash.
pub open spec fn spec_fnv1a_step(h: u64, byte: u8) -> u64 {
    (((h ^ (byte as u64)) as nat * FNV_PRIME as nat) % 0x1_0000_0000_0000_0000nat) as u64
}

/// FNV-1a 64-bit hash of a byte sequence, processed left to right.
pub open spec fn spec_fnv1a(data: Seq<u8>) -> u64
    decreases data.len(),
{
    if data.len() == 0 {
        FNV_OFFSET
    } else {
        spec_fnv1a_step(spec_fnv1a(data.drop_last()), data.last())
    }
}

/// Standard FNV-1a 64-bit hash.
pub fn fnv1a(data: &[u8]) -> (h: u64)
    ensures
        h == spec_fnv1a(data@),
{
    let mut hash: u64 = FNV_OFFSET;
    let mut i: usize = 0;
    while i < data.len()
        invariant
            i <= data@.len(),
            hash == spec_fnv1a(data@.subrange(0, i as int)),
        decreases data@.len() - i,
    {
        let byte = data[i];
        hash = (hash ^ (byte as u64)).wrapping_mul(FNV_PRIME);
        i = i + 1;
        proof {
            let prefix = data@.subrange(0, i as int);
            assert(prefix.drop_last() =~= data@.subrange(0, i - 1));
        }
    }
    proof {
        assert(data@.subrange(0, data@.len() as int) =~= data@);
    }
    hash
}

} // verus!
