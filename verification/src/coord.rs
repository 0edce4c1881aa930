//! Coordinates as raw bit patterns.
//!
//! A synthetic 2-D coordinate is a pair of positions plus a non-negative
//! height (error) term, all real-valued. The arithmetic on those values is
//! floating-point and stays outside this library; the logic here only ever
//! reads the IEEE-754 bit patterns of the three components, so that is what
//! the library's coordinate type holds.

use vstd::prelude::*;
use crate::hash::{fnv1a, spec_fnv1a};
use vstd::bytes::{spec_u64_to_le_bytes, u64_to_le_bytes};

verus! {

/// A coordinate held as the IEEE-754 bit patterns of `(x, y, height)`.
///
/// Two coordinates are the same exactly when their components have the same
/// bit patterns, which is the equality the content hashes below rely on.
#[derive(Debug, Clone, Copy, PartialEq, Eq, Structural)]
pub struct CoordBits {
    /// Bit pattern of the x position.
    pub x_bits: u64,
    /// Bit pattern of the y position.
    pub y_bits: u64,
    /// Bit pattern of the height (error) term.
    pub height_bits: u64,
}

/// Fingerprint of a coordinate: FNV-1a over the little-endian bytes of the
/// three component bit patterns, in `(x, y, height)` order.
pub open spec fn spec_coord_fingerprint(c: CoordBits) -> u64 {
    spec_fnv1a(
        spec_u64_to_le_bytes(c.x_bits) + spec_u64_to_le_bytes(c.y_bits) + spec_u64_to_le_bytes(
            c.height_bits,
        ),
    )
}

impl CoordBits {
    /// Pack three component bit patterns into a coordinate.
    pub fn new(x_bits: u64, y_bits: u64, height_bits: u64) -> (c: CoordBits)
        ensures
            c == (CoordBits { x_bits, y_bits, height_bits }),
    {
        CoordBits { x_bits, y_bits, height_bits }
    }

    /// Hash the coordinate for privacy-preserving proofs: equal coordinates
    /// always hash identically.
    pub fn hash(&self) -> (h: u64)
        ensures
            h == spec_coord_fingerprint(*self),
    {
        let mut buf = u64_to_le_bytes(self.x_bits);
        let mut yb = u64_to_le_bytes(self.y_bits);
        let mut hb = u64_to_le_bytes(self.height_bits);
        buf.append(&mut yb);
        buf.append(&mut hb);
        fnv1a(buf.as_slice())
    }
}

} // verus!
