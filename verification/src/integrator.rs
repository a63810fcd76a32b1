//! The per-tick state updates of the chain.
//!
//! The integrators work bob by bob over the chain vector: the
//! semi-implicit Euler step folds the accelerations into the angular
//! state directly, the Runge-Kutta step applies precombined deltas.
//! After a bob's angular state changes, its Cartesian position is
//! re-derived from the angles of the chain up to and including the bob
//! (forward kinematics), and a tick ends by recording one trail point
//! per bob with the fixed per-tick capacity [`TRAIL_CAP`].

use vstd::prelude::*;
use vstd::pervasive::VecAdditionalExecFns;

use crate::bob::{trail_step, Bob, BobSnap, Trail};
use crate::scalar::{RealOps, TWO_BITS, ZERO_BITS};
use crate::vec2::Vec2;

verus! {

/// The trail capacity used by the integrators: each tick records one
/// point per bob and keeps at most this many.
pub const TRAIL_CAP: usize = 250;

/// What an integration pass may change about a bob: position and
/// angular state.  Rod, trail, radius, mass and color keep their
/// values.
pub open spec fn motion_frame(ob: BobSnap, nb: BobSnap) -> bool {
    nb.rod == ob.rod && nb.trail == ob.trail && nb.radius == ob.radius && nb.mass == ob.mass
        && nb.color == ob.color
}

/// What a whole tick does to one bob: its position and angular state
/// move, everything else stays, and exactly one trail point — the new
/// position under the bob's own color — is recorded with capacity
/// [`TRAIL_CAP`].
pub open spec fn ticked_bob(ob: BobSnap, nb: BobSnap) -> bool {
    nb.rod == ob.rod && nb.radius == ob.radius && nb.mass == ob.mass && nb.color == ob.color
        && nb.trail == trail_step(
        ob.trail,
        (Trail { pos: nb.pos, color: nb.color }),
        TRAIL_CAP as nat,
    )
}

/// Moves the bob at `i` out of the chain, leaving a placeholder bob in
/// its slot.  The caller is expected to put a bob back with
/// [`put_bob`] before the slot is read again.
pub(crate) fn take_bob(bobs: &mut Vec<Bob>, i: usize) -> (b: Bob)
    requires
        i < old(bobs).len(),
    ensures
        b == old(bobs)@[i as int],
        final(bobs)@.len() == old(bobs)@.len(),
        forall|j: int| 0 <= j < old(bobs)@.len() && j != i ==> final(bobs)@[j] == old(bobs)@[j],
{
    let mut b = Bob::new(
        ZERO_BITS,
        ZERO_BITS,
        ZERO_BITS,
        ZERO_BITS,
        ZERO_BITS,
        ZERO_BITS,
        0,
        0,
        ZERO_BITS,
        0,
    );
    bobs.set_and_swap(i, &mut b);
    b
}

/// Puts `b` into slot `i` of the chain.
pub(crate) fn put_bob(bobs: &mut Vec<Bob>, i: usize, b: Bob)
    requires
        i < old(bobs).len(),
    ensures
        final(bobs)@ == old(bobs)@.update(i as int, b),
{
    bobs.set(i, b);
}

/// The Cartesian position of bob `i`: the cumulative sum, over the
/// chain from its anchored head up to and including bob `i`, of
/// `(length[j] * sin(theta[j]), length[j] * cos(theta[j]))`, as the
/// host arithmetic computes it term by term from the zero bits.
fn chain_position<O: RealOps>(bobs: &Vec<Bob>, i: usize, ops: &O) -> (p: Vec2)
    requires
        i < bobs.len(),
{
    let mut x: u64 = ZERO_BITS;
    let mut y: u64 = ZERO_BITS;
    let mut j: usize = 0;
    while j <= i
        invariant
            j <= i + 1,
            i < bobs.len(),
        decreases i + 1 - j,
    {
        let b = &bobs[j];
        x = ops.add(x, ops.mul(b.rod.length, ops.sin(b.theta)));
        y = ops.add(y, ops.mul(b.rod.length, ops.cos(b.theta)));
        j = j + 1;
    }
    Vec2::new(x, y)
}

/// One semi-implicit Euler pass: for each bob in order, the angular
/// velocity takes `ddots[i] * new_dt`, the angle then takes the new
/// velocity times `new_dt`, and the position is re-derived from the
/// chain's current angles.  Rod, trail and display fields are
/// untouched.
pub(crate) fn euler_advance<O: RealOps>(bobs: &mut Vec<Bob>, ddots: &Vec<u64>, new_dt: u64, ops: &O)
    requires
        ddots@.len() == old(bobs)@.len(),
    ensures
        final(bobs)@.len() == old(bobs)@.len(),
        forall|k: int|
            0 <= k < old(bobs)@.len() ==> #[trigger] motion_frame(old(bobs)@[k]@, final(bobs)@[k]@),
{
    let n: usize = bobs.len();
    let mut i: usize = 0;
    while i < n
        invariant
            i <= n,
            n == bobs@.len(),
            n == old(bobs)@.len(),
            ddots@.len() == n,
            forall|k: int| 0 <= k < n ==> #[trigger] motion_frame(old(bobs)@[k]@, bobs@[k]@),
        decreases n - i,
    {
        let ghost at_entry = bobs@;
        let mut b = take_bob(bobs, i);
        b.omega = ops.add(b.omega, ops.mul(ddots[i], new_dt));
        b.theta = ops.add(b.theta, ops.mul(b.omega, new_dt));
        put_bob(bobs, i, b);
        let p = chain_position(bobs, i, ops);
        let mut b2 = take_bob(bobs, i);
        b2.pos = p;
        put_bob(bobs, i, b2);
        proof {
            assert forall|k: int| 0 <= k < n implies #[trigger] motion_frame(
                old(bobs)@[k]@,
                bobs@[k]@,
            ) by {
                assert(motion_frame(old(bobs)@[k]@, at_entry[k]@));
                if k != i {
                    assert(bobs@[k] == at_entry[k]);
                }
            }
        }
        i = i + 1;
    }
}

/// One Runge-Kutta application pass: for each bob in order, the angle
/// takes its combined delta, the angular velocity takes its combined
/// delta, and the position is re-derived from the chain's current
/// angles.  Rod, trail and display fields are untouched.
pub(crate) fn rk4_advance<O: RealOps>(
    bobs: &mut Vec<Bob>,
    theta_deltas: &Vec<u64>,
    omega_deltas: &Vec<u64>,
    ops: &O,
)
    requires
        theta_deltas@.len() == old(bobs)@.len(),
        omega_deltas@.len() == old(bobs)@.len(),
    ensures
        final(bobs)@.len() == old(bobs)@.len(),
        forall|k: int|
            0 <= k < old(bobs)@.len() ==> #[trigger] motion_frame(old(bobs)@[k]@, final(bobs)@[k]@),
{
    let n: usize = bobs.len();
    let mut i: usize = 0;
    while i < n
        invariant
            i <= n,
            n == bobs@.len(),
            n == old(bobs)@.len(),
            theta_deltas@.len() == n,
            omega_deltas@.len() == n,
            forall|k: int| 0 <= k < n ==> #[trigger] motion_frame(old(bobs)@[k]@, bobs@[k]@),
        decreases n - i,
    {
        let ghost at_entry = bobs@;
        let mut b = take_bob(bobs, i);
        b.theta = ops.add(b.theta, theta_deltas[i]);
        b.omega = ops.add(b.omega, omega_deltas[i]);
        put_bob(bobs, i, b);
        let p = chain_position(bobs, i, ops);
        let mut b2 = take_bob(bobs, i);
        b2.pos = p;
        put_bob(bobs, i, b2);
        proof {
            assert forall|k: int| 0 <= k < n implies #[trigger] motion_frame(
                old(bobs)@[k]@,
                bobs@[k]@,
            ) by {
                assert(motion_frame(old(bobs)@[k]@, at_entry[k]@));
                if k != i {
                    assert(bobs@[k] == at_entry[k]);
                }
            }
        }
        i = i + 1;
    }
}

/// Records one trail point per bob: the bob's current position under
/// its own color, with capacity [`TRAIL_CAP`].
pub(crate) fn record_trails(bobs: &mut Vec<Bob>)
    ensures
        final(bobs)@.len() == old(bobs)@.len(),
        forall|k: int|
            0 <= k < old(bobs)@.len() ==> final(bobs)@[k]@ == (BobSnap {
                trail: trail_step(
                    old(bobs)@[k]@.trail,
                    (Trail { pos: old(bobs)@[k]@.pos, color: old(bobs)@[k]@.color }),
                    TRAIL_CAP as nat,
                ),
                ..old(bobs)@[k]@
            }),
{
    let n: usize = bobs.len();
    let mut i: usize = 0;
    while i < n
        invariant
            i <= n,
            n == bobs@.len(),
            n == old(bobs)@.len(),
            forall|k: int|
                0 <= k < i ==> bobs@[k]@ == (BobSnap {
                    trail: trail_step(
                        old(bobs)@[k]@.trail,
                        (Trail { pos: old(bobs)@[k]@.pos, color: old(bobs)@[k]@.color }),
                        TRAIL_CAP as nat,
                    ),
                    ..old(bobs)@[k]@
                }),
            forall|k: int| i <= k < n ==> bobs@[k] == old(bobs)@[k],
        decreases n - i,
    {
        let mut b = take_bob(bobs, i);
        let p = b.pos;
        let c = b.color;
        b.add_trail_point(p, c, TRAIL_CAP);
        put_bob(bobs, i, b);
        i = i + 1;
    }
}

/// `base[i] + k[i] * scale`, entry by entry: a staged state of the
/// Runge-Kutta scheme.
pub(crate) fn add_scaled<O: RealOps>(base: &Vec<u64>, k: &Vec<u64>, scale: u64, ops: &O) -> (r: Vec<u64>)
    requires
        base@.len() == k@.len(),
    ensures
        r@.len() == base@.len(),
{
    let mut r: Vec<u64> = Vec::new();
    let mut i: usize = 0;
    while i < base.len()
        invariant
            i <= base@.len(),
            base@.len() == k@.len(),
            r@.len() == i,
        decreases base@.len() - i,
    {
        r.push(ops.add(base[i], ops.mul(k[i], scale)));
        i = i + 1;
    }
    r
}

/// `(k1[i] + k2[i] * 2 + k3[i] * 2 + k4[i]) * scale`, entry by entry:
/// the classical Runge-Kutta combination of the four stage
/// derivatives, with `scale` standing for `new_dt / 6`.
pub(crate) fn rk4_combine<O: RealOps>(
    k1: &Vec<u64>,
    k2: &Vec<u64>,
    k3: &Vec<u64>,
    k4: &Vec<u64>,
    scale: u64,
    ops: &O,
) -> (r: Vec<u64>)
    requires
        k1@.len() == k2@.len(),
        k1@.len() == k3@.len(),
        k1@.len() == k4@.len(),
    ensures
        r@.len() == k1@.len(),
{
    let mut r: Vec<u64> = Vec::new();
    let mut i: usize = 0;
    while i < k1.len()
        invariant
            i <= k1@.len(),
            k1@.len() == k2@.len(),
            k1@.len() == k3@.len(),
            k1@.len() == k4@.len(),
            r@.len() == i,
        decreases k1@.len() - i,
    {
        let sum = ops.add(
            ops.add(ops.add(k1[i], ops.mul(k2[i], TWO_BITS)), ops.mul(k3[i], TWO_BITS)),
            k4[i],
        );
        r.push(ops.mul(sum, scale));
        i = i + 1;
    }
    r
}

} // verus!
