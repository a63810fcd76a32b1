//! The rigid rod that attaches a bob to its predecessor.

use vstd::prelude::*;

verus! {

/// A rod: length and mass are binary64 bit patterns, the color is a
/// 24-bit RGB value.  A negative length is representable on purpose —
/// it propagates geometrically instead of being rejected, and keeping
/// the domain open is the caller's responsibility.
#[derive(Clone, Copy, Debug, PartialEq, Eq, Structural)]
pub struct Rod {
    pub length: u64,
    pub mass: u64,
    pub color: u32,
}

impl Rod {
    /// A rod with the given length, mass and color.
    pub fn new(length: u64, mass: u64, color: u32) -> (r: Rod)
        ensures
            r == (Rod { length, mass, color }),
    {
        Rod { length, mass, color }
    }

    /// Replaces the length in place; mass and color keep their values.
    /// No validation happens here, matching the open domain of the type.
    pub fn update_length(&mut self, length: u64)
        ensures
            *final(self) == (Rod { length, ..*old(self) }),
    {
        self.length = length;
    }
}

} // verus!
