//! Scalars of the simulation.
//!
//! A scalar is the bit pattern of an IEEE-754 binary64 value, carried as
//! a `u64`.  The library stores, moves and compares these bits but never
//! computes on them: every arithmetic step is delegated to a host-supplied
//! implementation of [`RealOps`].  Keeping the arithmetic behind a trait
//! keeps the simulation deterministic (the host maps equal bits to equal
//! bits as long as its operations do) and keeps every decision the library
//! takes — most importantly the abort on a non-finite acceleration — in
//! verified code.

use vstd::prelude::*;

verus! {

/// Bits of `0.0`.
pub const ZERO_BITS: u64 = 0x0000000000000000;

/// Bits of `0.25`, the fixed stabilization factor applied to every time step.
pub const QUARTER_BITS: u64 = 0x3FD0000000000000;

/// Bits of `0.5`, the half-step weight of the middle Runge-Kutta stages.
pub const HALF_BITS: u64 = 0x3FE0000000000000;

/// Bits of `1.0`, the full-step weight of the last Runge-Kutta stage.
pub const ONE_BITS: u64 = 0x3FF0000000000000;

/// Bits of `2.0`, the weight of the middle Runge-Kutta stages in the combine.
pub const TWO_BITS: u64 = 0x4000000000000000;

/// Bits of `6.0`, the divisor of the Runge-Kutta combine.
pub const SIX_BITS: u64 = 0x4018000000000000;

/// Bits of `9.8`, the default gravity.
pub const GRAVITY_DEFAULT_BITS: u64 = 0x402399999999999A;

/// Bits of `10.0`, the default rod mass and the default mass of an appended bob.
pub const TEN_BITS: u64 = 0x4024000000000000;

/// Bits of `100.0`, the default rod length and the default bob mass.
pub const HUNDRED_BITS: u64 = 0x4059000000000000;

/// Bits of `200.0`, the initial horizontal position of the second default bob.
pub const TWO_HUNDRED_BITS: u64 = 0x4069000000000000;

/// Bits of `pi / 2`, the initial angle of the two default bobs.
pub const HALF_PI_BITS: u64 = 0x3FF921FB54442D18;

/// Bits of `0.05`, the default time-dilation factor.
pub const SPEED_DEFAULT_BITS: u64 = 0x3FA999999999999A;

/// Bits of `0.1`, the default (informational) step size.
pub const STEP_DEFAULT_BITS: u64 = 0x3FB999999999999A;

/// A binary64 value is a NaN exactly when its exponent field is all ones
/// and its fraction field is not zero.
pub open spec fn is_nan_bits(b: u64) -> bool {
    (b >> 52) & 0x7FF == 0x7FF && b & 0x000F_FFFF_FFFF_FFFF != 0
}

/// Runtime form of [`is_nan_bits`].
pub fn bits_are_nan(b: u64) -> (r: bool)
    ensures
        r == is_nan_bits(b),
{
    (b >> 52) & 0x7FF == 0x7FF && b & 0x000F_FFFF_FFFF_FFFF != 0
}

/// The real arithmetic of the simulation, supplied by the host.
///
/// Every argument and every result is the bit pattern of a binary64
/// value.  A host implementation is expected to perform the matching
/// IEEE-754 operation (`add` adds, `sin` takes the sine, and so on),
/// but the library assumes nothing about the returned bits: whatever
/// comes back, the verified bookkeeping around the calls holds.
pub trait RealOps {
    /// `a + b`.
    fn add(&self, a: u64, b: u64) -> u64;

    /// `a - b`.
    fn sub(&self, a: u64, b: u64) -> u64;

    /// `a * b`.
    fn mul(&self, a: u64, b: u64) -> u64;

    /// `a / b`.
    fn div(&self, a: u64, b: u64) -> u64;

    /// `sin a`.
    fn sin(&self, a: u64) -> u64;

    /// `cos a`.
    fn cos(&self, a: u64) -> u64;

    /// `a` squared.
    fn square(&self, a: u64) -> u64;

    /// The square root of `a`.
    fn sqrt(&self, a: u64) -> u64;

    /// The binary64 value of the integer `n`.
    fn of_uint(&self, n: usize) -> u64;

    /// A solution `x` of the square linear system `m * x = rhs`, or
    /// `None` when the host finds the system singular.  Row `i` of `m`
    /// holds the coefficients of equation `i`.
    fn solve_linear(&self, m: &Vec<Vec<u64>>, rhs: &Vec<u64>) -> Option<Vec<u64>>;
}

/// A choice of a display color, kept behind a trait so that the one
/// nondeterministic operation of the simulation — the palette draw for
/// an appended bob — is injectable and can be made deterministic under
/// test.
pub trait ColorChoice {
    /// Some index intended to lie below `n`; the library reduces it
    /// modulo the palette size, so any returned value is safe.
    fn pick(&mut self, n: usize) -> usize;
}

/// Relies on rand::random_range: a uniformly distributed index drawn
/// from `0..n`.  The range must not be empty (the call would panic).
#[verifier::external_body]
fn random_index(n: usize) -> (r: usize)
    requires
        n > 0,
    ensures
        r < n,
{
    rand::random_range(0..n)
}

/// The default color choice: an independent uniform draw per pick,
/// from the process-wide generator.
pub struct RandomChoice;

impl ColorChoice for RandomChoice {
    fn pick(&mut self, n: usize) -> usize {
        if n == 0 {
            0
        } else {
            random_index(n)
        }
    }
}

} // verus!
