//! A two-dimensional vector of binary64 bit patterns.

use vstd::prelude::*;

use crate::scalar::RealOps;

verus! {

/// A point or displacement in the plane.  Both coordinates are bit
/// patterns of binary64 values (see [`crate::scalar`]).
#[derive(Clone, Copy, Debug, PartialEq, Eq, Structural)]
pub struct Vec2 {
    pub x: u64,
    pub y: u64,
}

impl Vec2 {
    /// The vector with the given coordinates.
    pub fn new(x: u64, y: u64) -> (r: Vec2)
        ensures
            r == (Vec2 { x, y }),
    {
        Vec2 { x, y }
    }

    /// Divides both coordinates by `n` in place.  The quotients are
    /// whatever the host arithmetic returns; in particular `n == 0.0`
    /// is not guarded against, exactly as with native floating point.
    pub fn divide<O: RealOps>(&mut self, n: u64, ops: &O) {
        self.x = ops.div(self.x, n);
        self.y = ops.div(self.y, n);
    }

    /// The Euclidean distance to `other`, as the host arithmetic
    /// computes it: the square root of the sum of the squared
    /// coordinate differences.
    pub fn distance_from<O: RealOps>(&self, other: Vec2, ops: &O) -> u64 {
        let dx = ops.sub(self.x, other.x);
        let dy = ops.sub(self.y, other.y);
        ops.sqrt(ops.add(ops.square(dx), ops.square(dy)))
    }
}

} // verus!
