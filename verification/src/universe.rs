//! The simulation aggregate: the chain of bobs and the simulation
//! settings, advanced one tick at a time.

use vstd::prelude::*;

use crate::bob::{bob_snap, Bob, BobSnap, Trail};
use crate::dynamics::{any_nan, calculate_accelerations};
use crate::integrator::{
    add_scaled, euler_advance, motion_frame, put_bob, record_trails, rk4_advance, rk4_combine,
    take_bob, ticked_bob,
};
use crate::rod::Rod;
use crate::scalar::{
    ColorChoice, RealOps, GRAVITY_DEFAULT_BITS, HALF_BITS, HALF_PI_BITS, HUNDRED_BITS, ONE_BITS,
    QUARTER_BITS, SIX_BITS, SPEED_DEFAULT_BITS, STEP_DEFAULT_BITS, TEN_BITS, TWO_HUNDRED_BITS,
    ZERO_BITS,
};
use crate::vec2::Vec2;

verus! {

/// The selectable integration schemes.  `Hamiltonian` is declared but
/// has no algorithm: selecting it makes every tick report
/// [`Outcome::NotImplemented`] instead of silently succeeding.
#[derive(Clone, Copy, Debug, PartialEq, Eq, Structural)]
pub enum Implementation {
    Euler,
    RK4,
    Hamiltonian,
}

/// What one call of [`Universe::time_step`] did.
#[derive(Clone, Copy, Debug, PartialEq, Eq, Structural)]
pub enum Outcome {
    /// The tick ran and the chain state moved.
    Applied,
    /// The chain was empty or the simulation paused; nothing changed.
    Skipped,
    /// An acceleration came back NaN; the tick was abandoned with the
    /// chain state untouched (beyond the stability cutoff).
    Aborted,
    /// The selected integration scheme has no algorithm.
    NotImplemented,
}

/// The whole simulation: the chain and its settings.
pub struct Universe {
    bobs: Vec<Bob>,
    gravity: u64,
    is_paused: bool,
    implementation: Implementation,
    speed: u64,
    step: u64,
    max_bobs: usize,
}

/// The mathematical value of a [`Universe`].
#[verifier::ext_equal]
pub ghost struct UniverseSnap {
    pub bobs: Seq<BobSnap>,
    pub gravity: u64,
    pub is_paused: bool,
    pub implementation: Implementation,
    pub speed: u64,
    pub step: u64,
    pub max_bobs: usize,
}

impl View for Universe {
    type V = UniverseSnap;

    closed spec fn view(&self) -> UniverseSnap {
        UniverseSnap {
            bobs: self.bobs@.map_values(|b: Bob| b@),
            gravity: self.gravity,
            is_paused: self.is_paused,
            implementation: self.implementation,
            speed: self.speed,
            step: self.step,
            max_bobs: self.max_bobs,
        }
    }
}

/// `s` with its chain replaced: the shape of every contract that
/// leaves the settings alone.
pub open spec fn with_bobs(s: UniverseSnap, bobs: Seq<BobSnap>) -> UniverseSnap {
    UniverseSnap { bobs, ..s }
}

/// The stability cutoff: a chain longer than `max` is truncated to its
/// first `max` bobs.
pub open spec fn cutoff(bobs: Seq<BobSnap>, max: usize) -> Seq<BobSnap> {
    if bobs.len() > max {
        bobs.take(max as int)
    } else {
        bobs
    }
}

/// What a partial forward-kinematics pass may change about a bob:
/// angle, rod and position.  Angular velocity, trail and display
/// fields keep their values.
pub open spec fn fk_frame(ob: BobSnap, nb: BobSnap) -> bool {
    nb.omega == ob.omega && nb.trail == ob.trail && nb.radius == ob.radius && nb.mass == ob.mass
        && nb.color == ob.color
}

/// The default state of one of the two initial bobs: at rest at a
/// right angle, on the default rod, with default mass and radius.
pub open spec fn default_bob_snap(px: u64, color: u32) -> BobSnap {
    bob_snap(
        px,
        ZERO_BITS,
        ZERO_BITS,
        HALF_PI_BITS,
        HUNDRED_BITS,
        TEN_BITS,
        0x0f0f0f,
        10,
        HUNDRED_BITS,
        color,
    )
}

/// The state a universe starts in (and returns to on reset): two
/// default bobs, default gravity, speed and step, the Euler scheme,
/// not paused, and a chain cap of 100.
pub open spec fn default_snap() -> UniverseSnap {
    UniverseSnap {
        bobs: seq![
            default_bob_snap(HUNDRED_BITS, 0xff0000),
            default_bob_snap(TWO_HUNDRED_BITS, 0x0000ff),
        ],
        gravity: GRAVITY_DEFAULT_BITS,
        is_paused: false,
        implementation: Implementation::Euler,
        speed: SPEED_DEFAULT_BITS,
        step: STEP_DEFAULT_BITS,
        max_bobs: 100,
    }
}

/// The fixed palette that appended bobs draw their display color from.
pub open spec fn palette() -> Seq<u32> {
    seq![0xff0000u32, 0x0000ffu32, 0x00ff00u32, 0xf0f000u32, 0x00f0f0u32, 0xf000f0u32]
}

/// The angles of the chain, in order.
fn thetas_of(bobs: &Vec<Bob>) -> (v: Vec<u64>)
    ensures
        v@.len() == bobs@.len(),
        forall|i: int| 0 <= i < bobs@.len() ==> v@[i] == bobs@[i]@.theta,
{
    let mut v: Vec<u64> = Vec::new();
    let mut i: usize = 0;
    while i < bobs.len()
        invariant
            i <= bobs@.len(),
            v@.len() == i,
            forall|j: int| 0 <= j < i ==> v@[j] == bobs@[j]@.theta,
        decreases bobs@.len() - i,
    {
        v.push(bobs[i].theta);
        i = i + 1;
    }
    v
}

/// The angular velocities of the chain, in order.
fn omegas_of(bobs: &Vec<Bob>) -> (v: Vec<u64>)
    ensures
        v@.len() == bobs@.len(),
        forall|i: int| 0 <= i < bobs@.len() ==> v@[i] == bobs@[i]@.omega,
{
    let mut v: Vec<u64> = Vec::new();
    let mut i: usize = 0;
    while i < bobs.len()
        invariant
            i <= bobs@.len(),
            v@.len() == i,
            forall|j: int| 0 <= j < i ==> v@[j] == bobs@[j]@.omega,
        decreases bobs@.len() - i,
    {
        v.push(bobs[i].omega);
        i = i + 1;
    }
    v
}

impl Universe {
    /// A fresh universe in the default state.
    pub fn new() -> (r: Universe)
        ensures
            r@ == default_snap(),
    {
        let bob1 = Bob::new(
            HUNDRED_BITS,
            ZERO_BITS,
            ZERO_BITS,
            HALF_PI_BITS,
            HUNDRED_BITS,
            TEN_BITS,
            0x0f0f0f,
            10,
            HUNDRED_BITS,
            0xff0000,
        );
        let bob2 = Bob::new(
            TWO_HUNDRED_BITS,
            ZERO_BITS,
            ZERO_BITS,
            HALF_PI_BITS,
            HUNDRED_BITS,
            TEN_BITS,
            0x0f0f0f,
            10,
            HUNDRED_BITS,
            0x0000ff,
        );
        let mut bobs: Vec<Bob> = Vec::new();
        bobs.push(bob1);
        bobs.push(bob2);
        let r = Universe {
            bobs,
            gravity: GRAVITY_DEFAULT_BITS,
            implementation: Implementation::Euler,
            speed: SPEED_DEFAULT_BITS,
            step: STEP_DEFAULT_BITS,
            max_bobs: 100,
            is_paused: false,
        };
        proof {
            assert(r@.bobs =~= default_snap().bobs);
            assert(r@ =~= default_snap());
        }
        r
    }

    /// Replaces the whole universe with a fresh default one.
    pub fn reset(&mut self)
        ensures
            final(self)@ == default_snap(),
    {
        *self = Universe::new();
    }

    /// Appends a fully specified bob at the tail of the chain.
    pub fn add_bob(
        &mut self,
        px: u64,
        py: u64,
        omega: u64,
        theta: u64,
        rl: u64,
        rm: u64,
        rc: u32,
        radius: i32,
        mass: u64,
        color: u32,
    )
        ensures
            final(self)@ == with_bobs(
                old(self)@,
                old(self)@.bobs.push(bob_snap(px, py, omega, theta, rl, rm, rc, radius, mass, color)),
            ),
    {
        self.bobs.push(Bob::new(px, py, omega, theta, rl, rm, rc, radius, mass, color));
        proof {
            assert(self@.bobs =~= old(self)@.bobs.push(
                bob_snap(px, py, omega, theta, rl, rm, rc, radius, mass, color),
            ));
            assert(self@ =~= with_bobs(old(self)@, self@.bobs));
        }
    }

    /// A display color drawn from the fixed palette, using the
    /// host-supplied choice (reduced modulo the palette size, so any
    /// host behavior yields a palette color).
    pub fn random_color<C: ColorChoice>(colors: &mut C) -> (r: u32)
        ensures
            palette().contains(r),
    {
        let idx: usize = colors.pick(6) % 6;
        let r: u32 = if idx == 0 {
            0xff0000
        } else if idx == 1 {
            0x0000ff
        } else if idx == 2 {
            0x00ff00
        } else if idx == 3 {
            0xf0f000
        } else if idx == 4 {
            0x00f0f0
        } else {
            0xf000f0
        };
        proof {
            if idx == 0 {
                assert(palette()[0] == r);
            } else if idx == 1 {
                assert(palette()[1] == r);
            } else if idx == 2 {
                assert(palette()[2] == r);
            } else if idx == 3 {
                assert(palette()[3] == r);
            } else if idx == 4 {
                assert(palette()[4] == r);
            } else {
                assert(palette()[5] == r);
            }
        }
        r
    }

    /// Appends a bob at rest at angle `theta`, on a default rod, with
    /// a palette color.  Its position chains from the current last
    /// bob's position (or from the origin on an empty chain) — not
    /// from a full forward-kinematics pass.
    pub fn add_bob_simple<O: RealOps, C: ColorChoice>(
        &mut self,
        theta: u64,
        ops: &O,
        colors: &mut C,
    )
        ensures
            final(self)@.bobs.len() == old(self)@.bobs.len() + 1,
            final(self)@ == with_bobs(
                old(self)@,
                old(self)@.bobs.push(final(self)@.bobs.last()),
            ),
            ({
                let b = final(self)@.bobs.last();
                b.omega == ZERO_BITS && b.theta == theta && b.rod == (Rod {
                    length: HUNDRED_BITS,
                    mass: TEN_BITS,
                    color: 0x0f0f0f,
                }) && b.trail == Seq::<Trail>::empty() && b.radius == 10 && b.mass == TEN_BITS
                    && palette().contains(b.color)
            }),
    {
        let default_length = HUNDRED_BITS;
        let default_mass = TEN_BITS;
        let default_color = Self::random_color(colors);
        let default_rod_color = 0x0f0f0f;
        let n: usize = self.bobs.len();
        let (px, py) = if n > 0 {
            let last = &self.bobs[n - 1];
            (
                ops.add(last.pos.x, ops.mul(default_length, ops.sin(theta))),
                ops.add(last.pos.y, ops.mul(default_length, ops.cos(theta))),
            )
        } else {
            (ops.mul(default_length, ops.sin(theta)), ops.mul(default_length, ops.cos(theta)))
        };
        self.bobs.push(
            Bob::new(
                px,
                py,
                ZERO_BITS,
                theta,
                default_length,
                default_mass,
                default_rod_color,
                10,
                default_mass,
                default_color,
            ),
        );
        proof {
            assert(self@.bobs =~= old(self)@.bobs.push(self@.bobs.last()));
            assert(self@ =~= with_bobs(old(self)@, self@.bobs));
        }
    }

    /// Removes the last bob; does nothing on an empty chain.
    pub fn remove_bob(&mut self)
        ensures
            old(self)@.bobs.len() == 0 ==> final(self)@ == old(self)@,
            old(self)@.bobs.len() > 0 ==> final(self)@ == with_bobs(
                old(self)@,
                old(self)@.bobs.drop_last(),
            ),
    {
        self.bobs.pop();
        proof {
            if old(self)@.bobs.len() == 0 {
                assert(self@ =~= old(self)@);
            } else {
                assert(self@.bobs =~= old(self)@.bobs.drop_last());
                assert(self@ =~= with_bobs(old(self)@, old(self)@.bobs.drop_last()));
            }
        }
    }

    /// Copies of all bobs, in chain order.
    pub fn get_bobs(&self) -> (r: Vec<Bob>)
        ensures
            r@.len() == self@.bobs.len(),
            forall|i: int| 0 <= i < r@.len() ==> r@[i]@ == self@.bobs[i],
    {
        let mut r: Vec<Bob> = Vec::new();
        let mut i: usize = 0;
        while i < self.bobs.len()
            invariant
                i <= self.bobs@.len(),
                r@.len() == i,
                forall|j: int| 0 <= j < i ==> r@[j]@ == self.bobs@[j]@,
            decreases self.bobs@.len() - i,
        {
            r.push(self.bobs[i].snapshot());
            i = i + 1;
        }
        r
    }

    /// A copy of the bob at `index`, or nothing when the index is out
    /// of range.
    pub fn get_bob(&self, index: usize) -> (r: Option<Bob>)
        ensures
            (r is Some) <==> index < self@.bobs.len(),
            r matches Some(b) ==> b@ == self@.bobs[index as int],
    {
        if index < self.bobs.len() {
            Some(self.bobs[index].snapshot())
        } else {
            None
        }
    }

    /// The number of bobs, as the host-facing 32-bit count.
    pub fn get_bob_count(&self) -> (r: i32)
        ensures
            self@.bobs.len() <= i32::MAX ==> r == self@.bobs.len() as i32,
    {
        #[verifier::truncate] (self.bobs.len() as i32)
    }

    /// Sets the angle of the bob at `index` and re-derives the
    /// positions of that bob and every later one, each chaining from
    /// its predecessor's (just updated) position.  Out-of-range
    /// indices are ignored.
    pub fn update_bob_theta<O: RealOps>(&mut self, index: usize, theta: u64, ops: &O)
        ensures
            index >= old(self)@.bobs.len() ==> final(self)@ == old(self)@,
            index < old(self)@.bobs.len() ==> {
                &&& final(self)@ == with_bobs(old(self)@, final(self)@.bobs)
                &&& final(self)@.bobs.len() == old(self)@.bobs.len()
                &&& (forall|j: int| 0 <= j < index ==> final(self)@.bobs[j] == old(self)@.bobs[j])
                &&& final(self)@.bobs[index as int].theta == theta
                &&& (forall|j: int|
                    index < j < old(self)@.bobs.len() ==> final(self)@.bobs[j].theta == old(
                        self,
                    )@.bobs[j].theta)
                &&& (forall|j: int|
                    index <= j < old(self)@.bobs.len() ==> final(self)@.bobs[j].rod == old(
                        self,
                    )@.bobs[j].rod)
                &&& (forall|j: int|
                    index <= j < old(self)@.bobs.len() ==> #[trigger] fk_frame(
                        old(self)@.bobs[j],
                        final(self)@.bobs[j],
                    ))
            },
    {
        if index < self.bobs.len() {
            let mut b = take_bob(&mut self.bobs, index);
            b.theta = theta;
            put_bob(&mut self.bobs, index, b);
            let ghost mid = self.bobs@;
            let n: usize = self.bobs.len();
            let mut i: usize = index;
            while i < n
                invariant
                    index <= i <= n,
                    index < n,
                    n == self.bobs@.len(),
                    mid.len() == n,
                    self@ == with_bobs(old(self)@, self@.bobs),
                    forall|j: int| 0 <= j < index || i <= j < n ==> self.bobs@[j] == mid[j],
                    forall|j: int|
                        index <= j < i ==> self.bobs@[j]@ == (BobSnap {
                            pos: self.bobs@[j]@.pos,
                            ..mid[j]@
                        }),
                decreases n - i,
            {
                let ghost at_entry = self.bobs@;
                let base: Vec2 = if i == 0 {
                    Vec2::new(ZERO_BITS, ZERO_BITS)
                } else {
                    self.bobs[i - 1].pos
                };
                let rl = self.bobs[i].rod.length;
                let th = self.bobs[i].theta;
                let x = ops.add(base.x, ops.mul(rl, ops.sin(th)));
                let y = ops.add(base.y, ops.mul(rl, ops.cos(th)));
                let mut b2 = take_bob(&mut self.bobs, i);
                b2.pos = Vec2::new(x, y);
                put_bob(&mut self.bobs, i, b2);
                proof {
                    assert forall|j: int| 0 <= j < index || i + 1 <= j < n implies self.bobs@[j]
                        == mid[j] by {
                        assert(at_entry[j] == mid[j]);
                    }
                    assert(self@.bobs =~= self.bobs@.map_values(|bb: Bob| bb@));
                }
                i = i + 1;
            }
        }
    }

    /// Sets the rod length of the bob at `index` and re-derives the
    /// positions of that bob and every later one (the angle keeps its
    /// value).  Out-of-range indices are ignored.
    pub fn update_bob_length<O: RealOps>(&mut self, index: usize, length: u64, ops: &O)
        ensures
            index >= old(self)@.bobs.len() ==> final(self)@ == old(self)@,
            index < old(self)@.bobs.len() ==> {
                &&& final(self)@ == with_bobs(old(self)@, final(self)@.bobs)
                &&& final(self)@.bobs.len() == old(self)@.bobs.len()
                &&& (forall|j: int| 0 <= j < index ==> final(self)@.bobs[j] == old(self)@.bobs[j])
                &&& final(self)@.bobs[index as int].rod == (Rod {
                    length,
                    ..old(self)@.bobs[index as int].rod
                })
                &&& (forall|j: int|
                    index < j < old(self)@.bobs.len() ==> final(self)@.bobs[j].rod == old(
                        self,
                    )@.bobs[j].rod)
                &&& (forall|j: int|
                    index <= j < old(self)@.bobs.len() ==> final(self)@.bobs[j].theta == old(
                        self,
                    )@.bobs[j].theta)
                &&& (forall|j: int|
                    index <= j < old(self)@.bobs.len() ==> #[trigger] fk_frame(
                        old(self)@.bobs[j],
                        final(self)@.bobs[j],
                    ))
            },
    {
        if index < self.bobs.len() {
            let mut b = take_bob(&mut self.bobs, index);
            b.rod.update_length(length);
            let th = b.theta;
            put_bob(&mut self.bobs, index, b);
            let ghost mid = self@;
            proof {
                assert(mid =~= with_bobs(old(self)@, mid.bobs));
            }
            self.update_bob_theta(index, th, ops);
            proof {
                assert(self@ =~= with_bobs(old(self)@, self@.bobs));
                assert forall|j: int| 0 <= j < index implies self@.bobs[j] == old(
                    self,
                )@.bobs[j] by {
                    assert(self@.bobs[j] == mid.bobs[j]);
                    assert(mid.bobs[j] == old(self)@.bobs[j]);
                }
                assert forall|j: int| index <= j < old(self)@.bobs.len() implies #[trigger] fk_frame(
                    old(self)@.bobs[j],
                    self@.bobs[j],
                ) by {
                    assert(fk_frame(mid.bobs[j], self@.bobs[j]));
                }
            }
        }
    }

    /// Sets the mass of the bob at `index`; no kinematics pass is
    /// needed.  Out-of-range indices are ignored.
    pub fn update_bob_mass(&mut self, index: usize, mass: u64)
        ensures
            index >= old(self)@.bobs.len() ==> final(self)@ == old(self)@,
            index < old(self)@.bobs.len() ==> final(self)@ == with_bobs(
                old(self)@,
                old(self)@.bobs.update(
                    index as int,
                    (BobSnap { mass, ..old(self)@.bobs[index as int] }),
                ),
            ),
    {
        if index < self.bobs.len() {
            let mut b = take_bob(&mut self.bobs, index);
            b.mass = mass;
            put_bob(&mut self.bobs, index, b);
            proof {
                assert(self@.bobs =~= old(self)@.bobs.update(
                    index as int,
                    (BobSnap { mass, ..old(self)@.bobs[index as int] }),
                ));
                assert(self@ =~= with_bobs(old(self)@, self@.bobs));
            }
        }
    }

    /// Copies of all trails, one per bob, in chain order.
    pub fn get_trails(&self) -> (r: Vec<Vec<Trail>>)
        ensures
            r@.len() == self@.bobs.len(),
            forall|i: int| 0 <= i < r@.len() ==> (#[trigger] r@[i])@ == self@.bobs[i].trail,
    {
        let mut r: Vec<Vec<Trail>> = Vec::new();
        let mut i: usize = 0;
        while i < self.bobs.len()
            invariant
                i <= self.bobs@.len(),
                r@.len() == i,
                forall|j: int| 0 <= j < i ==> (#[trigger] r@[j])@ == self.bobs@[j]@.trail,
            decreases self.bobs@.len() - i,
        {
            r.push(self.bobs[i].get_trail());
            i = i + 1;
        }
        r
    }

    /// Sets the gravity used by the solver.
    pub fn set_gravity(&mut self, gravity: u64)
        ensures
            final(self)@ == (UniverseSnap { gravity, ..old(self)@ }),
    {
        self.gravity = gravity;
    }

    /// The gravity used by the solver.
    pub fn get_gravity(&self) -> (r: u64)
        ensures
            r == self@.gravity,
    {
        self.gravity
    }

    /// Sets the time-dilation factor applied to every step.
    pub fn set_speed(&mut self, speed: u64)
        ensures
            final(self)@ == (UniverseSnap { speed, ..old(self)@ }),
    {
        self.speed = speed;
    }

    /// The time-dilation factor applied to every step.
    pub fn get_speed(&self) -> (r: u64)
        ensures
            r == self@.speed,
    {
        self.speed
    }

    /// Pauses or resumes the simulation.
    pub fn set_is_paused(&mut self, is_paused: bool)
        ensures
            final(self)@ == (UniverseSnap { is_paused, ..old(self)@ }),
    {
        self.is_paused = is_paused;
    }

    /// Whether the simulation is paused.
    pub fn get_is_paused(&self) -> (r: bool)
        ensures
            r == self@.is_paused,
    {
        self.is_paused
    }

    /// Selects the integration scheme.
    pub fn set_implementation(&mut self, implementation: Implementation)
        ensures
            final(self)@ == (UniverseSnap { implementation, ..old(self)@ }),
    {
        self.implementation = implementation;
    }

    /// The selected integration scheme.
    pub fn get_implementation(&self) -> (r: Implementation)
        ensures
            r == self@.implementation,
    {
        self.implementation
    }

    /// One simulation tick over the scaled step `dt * speed * 0.25`.
    ///
    /// On a paused or empty universe nothing changes and the tick is
    /// `Skipped`.  Otherwise a chain longer than the cap is first
    /// truncated to it (the stability cutoff).  The Euler scheme then
    /// solves once and aborts the tick — leaving the truncated chain
    /// otherwise untouched — if any acceleration comes back NaN; the
    /// Runge-Kutta scheme combines four stage solves; the Hamiltonian
    /// scheme reports `NotImplemented` without integrating.  A tick
    /// that was `Applied` moved only each bob's position and angular
    /// state and recorded one trail point per bob, and never touches
    /// the settings.
    pub fn time_step<O: RealOps>(&mut self, dt: u64, ops: &O) -> (r: Outcome)
        ensures
            final(self)@ == with_bobs(old(self)@, final(self)@.bobs),
            (r == Outcome::Skipped) <==> (old(self)@.bobs.len() == 0 || old(self)@.is_paused),
            r == Outcome::Skipped ==> final(self)@ == old(self)@,
            r != Outcome::Skipped ==> final(self)@.bobs.len() == cutoff(
                old(self)@.bobs,
                old(self)@.max_bobs,
            ).len(),
            (r == Outcome::NotImplemented) <==> (!(old(self)@.bobs.len() == 0
                || old(self)@.is_paused) && old(self)@.implementation
                == Implementation::Hamiltonian),
            r == Outcome::NotImplemented || r == Outcome::Aborted ==> final(self)@.bobs == cutoff(
                old(self)@.bobs,
                old(self)@.max_bobs,
            ),
            r == Outcome::Aborted ==> old(self)@.implementation == Implementation::Euler,
            r != Outcome::Skipped && old(self)@.implementation == Implementation::RK4 ==> r
                == Outcome::Applied,
            r == Outcome::Applied ==> forall|i: int|
                0 <= i < final(self)@.bobs.len() ==> #[trigger] ticked_bob(
                    old(self)@.bobs[i],
                    final(self)@.bobs[i],
                ),
    {
        if self.bobs.len() == 0 || self.is_paused {
            return Outcome::Skipped;
        }
        if self.bobs.len() > self.max_bobs {
            // stability cutoff: drop the extra bobs
            self.bobs.truncate(self.max_bobs);
        }
        proof {
            assert(self@.bobs =~= cutoff(old(self)@.bobs, old(self)@.max_bobs));
        }
        let ghost truncated = self.bobs@;
        let new_dt = ops.mul(ops.mul(dt, self.speed), QUARTER_BITS);
        match self.implementation {
            Implementation::Euler => {
                let thetas = thetas_of(&self.bobs);
                let omegas = omegas_of(&self.bobs);
                let (_dots, ddots) = calculate_accelerations(
                    &thetas,
                    &omegas,
                    self.gravity,
                    ops,
                );
                if any_nan(&ddots) {
                    return Outcome::Aborted;
                }
                euler_advance(&mut self.bobs, &ddots, new_dt, ops);
                let ghost advanced = self.bobs@;
                record_trails(&mut self.bobs);
                proof {
                    assert forall|i: int| 0 <= i < self@.bobs.len() implies #[trigger] ticked_bob(
                        old(self)@.bobs[i],
                        self@.bobs[i],
                    ) by {
                        assert(motion_frame(truncated[i]@, advanced[i]@));
                        assert(old(self)@.bobs[i] == truncated[i]@);
                    }
                }
                Outcome::Applied
            },
            Implementation::RK4 => {
                let thetas = thetas_of(&self.bobs);
                let omegas = omegas_of(&self.bobs);
                let k1 = calculate_accelerations(&thetas, &omegas, self.gravity, ops);
                let half_dt = ops.mul(HALF_BITS, new_dt);
                let t2 = add_scaled(&thetas, &k1.0, half_dt, ops);
                let w2 = add_scaled(&omegas, &k1.1, half_dt, ops);
                let k2 = calculate_accelerations(&t2, &w2, self.gravity, ops);
                let t3 = add_scaled(&thetas, &k2.0, half_dt, ops);
                let w3 = add_scaled(&omegas, &k2.1, half_dt, ops);
                let k3 = calculate_accelerations(&t3, &w3, self.gravity, ops);
                let full_dt = ops.mul(ONE_BITS, new_dt);
                let t4 = add_scaled(&thetas, &k3.0, full_dt, ops);
                let w4 = add_scaled(&omegas, &k3.1, full_dt, ops);
                let k4 = calculate_accelerations(&t4, &w4, self.gravity, ops);
                let scale = ops.div(new_dt, SIX_BITS);
                let theta_deltas = rk4_combine(&k1.0, &k2.0, &k3.0, &k4.0, scale, ops);
                let omega_deltas = rk4_combine(&k1.1, &k2.1, &k3.1, &k4.1, scale, ops);
                rk4_advance(&mut self.bobs, &theta_deltas, &omega_deltas, ops);
                let ghost advanced = self.bobs@;
                record_trails(&mut self.bobs);
                proof {
                    assert forall|i: int| 0 <= i < self@.bobs.len() implies #[trigger] ticked_bob(
                        old(self)@.bobs[i],
                        self@.bobs[i],
                    ) by {
                        assert(motion_frame(truncated[i]@, advanced[i]@));
                        assert(old(self)@.bobs[i] == truncated[i]@);
                    }
                }
                Outcome::Applied
            },
            Implementation::Hamiltonian => Outcome::NotImplemented,
        }
    }
}

} // verus!
