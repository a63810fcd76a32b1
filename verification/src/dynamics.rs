//! The equations of motion of the chain.
//!
//! For a chain of `n` bobs with angles `theta[0..n-1]` and angular
//! velocities `omega[0..n-1]`, the generalized-coordinate formulation
//! used here is
//!
//! * mass matrix `M[i][j] = (n - max(i, j)) * cos(theta[i] - theta[j])`,
//! * forcing vector
//!   `b[i] = -sum_j (n - max(i, j)) * sin(theta[i] - theta[j]) * omega[j]^2
//!           - gravity * (n - i) * sin(theta[i])`,
//!
//! and the angular accelerations are the solution of `M * x = b`.  The
//! solve is the host's (see [`RealOps::solve_linear`]); when the host
//! finds the system singular the accelerations fall back to all zeros,
//! freezing angular acceleration for that sub-step instead of failing
//! the tick.

use vstd::prelude::*;

use crate::scalar::{bits_are_nan, is_nan_bits, RealOps, ZERO_BITS};

verus! {

/// Whether some entry of `v` is a NaN bit pattern.
pub fn any_nan(v: &Vec<u64>) -> (r: bool)
    ensures
        r == exists|j: int| 0 <= j < v@.len() && is_nan_bits(v@[j]),
{
    let mut i: usize = 0;
    while i < v.len()
        invariant
            i <= v.len(),
            forall|j: int| 0 <= j < i ==> !is_nan_bits(v@[j]),
        decreases v.len() - i,
    {
        if bits_are_nan(v[i]) {
            proof {
                assert(is_nan_bits(v@[i as int]));
            }
            return true;
        }
        i = i + 1;
    }
    false
}

/// An all-zero acceleration vector (`0.0` is the bit pattern `0`).
pub open spec fn zero_accels(n: nat) -> Seq<u64> {
    Seq::new(n, |i: int| ZERO_BITS)
}

/// A vector of `n` zero scalars.
fn zero_vec(n: usize) -> (r: Vec<u64>)
    ensures
        r@ == zero_accels(n as nat),
{
    let mut r: Vec<u64> = Vec::new();
    let mut i: usize = 0;
    while i < n
        invariant
            i <= n,
            r@ == zero_accels(i as nat),
        decreases n - i,
    {
        r.push(ZERO_BITS);
        proof {
            assert(r@ =~= zero_accels((i + 1) as nat));
        }
        i = i + 1;
    }
    r
}

/// The accelerations taken from the host's solution of `M * x = b`:
/// the solution itself when the host produced one of the right length,
/// and the all-zero vector otherwise (a singular system freezes
/// angular acceleration rather than failing the step; a solution of
/// the wrong length is treated the same way, so that no host behavior
/// can break the caller).
pub fn accelerations_or_zero(n: usize, sol: Option<Vec<u64>>) -> (r: Vec<u64>)
    ensures
        r@.len() == n,
        sol matches Some(v) ==> r@ == (if v@.len() == n {
            v@
        } else {
            zero_accels(n as nat)
        }),
        sol is None ==> r@ == zero_accels(n as nat),
{
    match sol {
        Some(v) => {
            if v.len() == n {
                v
            } else {
                zero_vec(n)
            }
        },
        None => zero_vec(n),
    }
}

/// The mass matrix of the chain: `n` rows of `n` entries, with
/// `M[i][j] = (n - max(i, j)) * cos(theta[i] - theta[j])` as the host
/// arithmetic computes it.  Each entry with `j < i` is the stored
/// mirror of the entry `(j, i)`, so the matrix is symmetric entry for
/// entry, whatever bits the host returns.
pub fn mass_matrix<O: RealOps>(thetas: &Vec<u64>, ops: &O) -> (m: Vec<Vec<u64>>)
    ensures
        m@.len() == thetas@.len(),
        forall|i: int| 0 <= i < m@.len() ==> (#[trigger] m@[i])@.len() == thetas@.len(),
        forall|i: int, j: int|
            0 <= i < m@.len() && 0 <= j < m@.len() ==> m@[i]@[j] == m@[j]@[i],
{
    let n = thetas.len();
    let mut m: Vec<Vec<u64>> = Vec::new();
    let mut i: usize = 0;
    while i < n
        invariant
            i <= n,
            n == thetas@.len(),
            m@.len() == i,
            forall|r: int| 0 <= r < i ==> (#[trigger] m@[r])@.len() == n,
            forall|a: int, b: int| 0 <= a < i && 0 <= b < i ==> m@[a]@[b] == m@[b]@[a],
        decreases n - i,
    {
        let mut row: Vec<u64> = Vec::new();
        let mut j: usize = 0;
        while j < n
            invariant
                j <= n,
                i < n,
                n == thetas@.len(),
                m@.len() == i,
                forall|r: int| 0 <= r < i ==> (#[trigger] m@[r])@.len() == n,
                row@.len() == j,
                forall|c: int| 0 <= c < j && c < i ==> row@[c] == m@[c]@[i as int],
            decreases n - j,
        {
            if j < i {
                // mirror of the transposed entry, already computed
                let v = m[j][i];
                row.push(v);
            } else {
                let coeff = ops.of_uint(n - j);
                let c = ops.cos(ops.sub(thetas[i], thetas[j]));
                row.push(ops.mul(coeff, c));
            }
            j = j + 1;
        }
        m.push(row);
        i = i + 1;
    }
    m
}

/// The forcing vector of the chain, entry by entry:
/// `b[i] = -sum_j (n - max(i, j)) * sin(theta[i] - theta[j]) * omega[j]^2
///         - gravity * (n - i) * sin(theta[i])`,
/// accumulated in index order by the host arithmetic.
pub fn forcing_vector<O: RealOps>(
    thetas: &Vec<u64>,
    omegas: &Vec<u64>,
    gravity: u64,
    ops: &O,
) -> (v: Vec<u64>)
    requires
        thetas@.len() == omegas@.len(),
    ensures
        v@.len() == thetas@.len(),
{
    let n = thetas.len();
    let mut v: Vec<u64> = Vec::new();
    let mut i: usize = 0;
    while i < n
        invariant
            i <= n,
            n == thetas@.len(),
            n == omegas@.len(),
            v@.len() == i,
        decreases n - i,
    {
        let mut sum: u64 = ZERO_BITS;
        let mut j: usize = 0;
        while j < n
            invariant
                j <= n,
                i < n,
                n == thetas@.len(),
                n == omegas@.len(),
            decreases n - j,
        {
            let coeff = ops.of_uint(n - if i > j {
                i
            } else {
                j
            });
            let s = ops.sin(ops.sub(thetas[i], thetas[j]));
            let w2 = ops.square(omegas[j]);
            sum = ops.sub(sum, ops.mul(ops.mul(coeff, s), w2));
            j = j + 1;
        }
        let pull = ops.mul(ops.mul(gravity, ops.of_uint(n - i)), ops.sin(thetas[i]));
        sum = ops.sub(sum, pull);
        v.push(sum);
        i = i + 1;
    }
    v
}

/// One evaluation of the state derivative: the velocity vector is
/// passed through unchanged, and the acceleration vector is the
/// solution of the linear system (or the all-zero fallback, see
/// [`accelerations_or_zero`]).
pub fn calculate_accelerations<O: RealOps>(
    thetas: &Vec<u64>,
    omegas: &Vec<u64>,
    gravity: u64,
    ops: &O,
) -> (r: (Vec<u64>, Vec<u64>))
    requires
        thetas@.len() == omegas@.len(),
    ensures
        r.0@ == omegas@,
        r.1@.len() == thetas@.len(),
{
    let m = mass_matrix(thetas, ops);
    let b = forcing_vector(thetas, omegas, gravity, ops);
    let sol = ops.solve_linear(&m, &b);
    let ddots = accelerations_or_zero(thetas.len(), sol);
    let mut dots: Vec<u64> = Vec::new();
    let mut i: usize = 0;
    while i < omegas.len()
        invariant
            i <= omegas@.len(),
            dots@ == omegas@.take(i as int),
        decreases omegas@.len() - i,
    {
        dots.push(omegas[i]);
        proof {
            assert(dots@ =~= omegas@.take(i + 1));
        }
        i = i + 1;
    }
    proof {
        assert(dots@ =~= omegas@);
    }
    (dots, ddots)
}

} // verus!
