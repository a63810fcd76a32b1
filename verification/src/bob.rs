//! A pendulum bob and its bounded trail history.

use vstd::prelude::*;

use crate::rod::Rod;
use crate::vec2::Vec2;

verus! {

/// One recorded point of a bob's trail: a position and the display
/// color the bob had when the point was recorded.  Immutable once
/// recorded.
#[derive(Clone, Copy, Debug, PartialEq, Eq, Structural)]
pub struct Trail {
    pub pos: Vec2,
    pub color: u32,
}

/// One pendulum mass.
///
/// `theta` is the angle of the bob's rod against the vertical and
/// `omega` its angular velocity, both binary64 bit patterns; `pos` is
/// the Cartesian position derived from the whole chain's angles by
/// forward kinematics.  The trail is an ordered history of recorded
/// positions with first-in-first-out eviction (see
/// [`Bob::add_trail_point`]).
pub struct Bob {
    pub pos: Vec2,
    pub omega: u64,
    pub theta: u64,
    pub rod: Rod,
    pub trail: Vec<Trail>,
    pub radius: i32,
    pub mass: u64,
    pub color: u32,
}

/// The mathematical value of a [`Bob`]: the same fields, with the
/// trail as a sequence.
#[verifier::ext_equal]
pub ghost struct BobSnap {
    pub pos: Vec2,
    pub omega: u64,
    pub theta: u64,
    pub rod: Rod,
    pub trail: Seq<Trail>,
    pub radius: i32,
    pub mass: u64,
    pub color: u32,
}

impl View for Bob {
    type V = BobSnap;

    open spec fn view(&self) -> BobSnap {
        BobSnap {
            pos: self.pos,
            omega: self.omega,
            theta: self.theta,
            rod: self.rod,
            trail: self.trail@,
            radius: self.radius,
            mass: self.mass,
            color: self.color,
        }
    }
}

/// One recording step of a trail with capacity `max`: the point is
/// appended, and if the trail then holds more than `max` points the
/// oldest one is evicted.
pub open spec fn trail_step(trail: Seq<Trail>, point: Trail, max: nat) -> Seq<Trail> {
    let pushed = trail.push(point);
    if pushed.len() > max {
        pushed.drop_first()
    } else {
        pushed
    }
}

/// The trail left by recording the points of `history`, in order, into
/// an initially empty trail of capacity `max`.
pub open spec fn trail_after(history: Seq<Trail>, max: nat) -> Seq<Trail>
    decreases history.len(),
{
    if history.len() == 0 {
        Seq::empty()
    } else {
        trail_step(trail_after(history.drop_last(), max), history.last(), max)
    }
}

/// However many points are recorded with a fixed capacity `max`, the
/// trail never holds more than `max` of them, and what it holds is
/// exactly the most recently recorded points, in recording order.
pub proof fn lemma_trail_bound(history: Seq<Trail>, max: nat)
    ensures
        trail_after(history, max).len() == if history.len() <= max {
            history.len()
        } else {
            max
        },
        trail_after(history, max) == history.skip(
            history.len() - trail_after(history, max).len(),
        ),
    decreases history.len(),
{
    if history.len() == 0 {
        assert(trail_after(history, max) =~= history.skip(0));
    } else {
        let h0 = history.drop_last();
        lemma_trail_bound(h0, max);
        let prev = trail_after(h0, max);
        let k0 = h0.len() - prev.len();
        let pushed = prev.push(history.last());
        assert(pushed =~= history.skip(k0));
        if pushed.len() > max {
            assert(trail_after(history, max) =~= history.skip(k0 + 1));
        }
    }
}

/// The value of a freshly constructed bob: the given fields and an
/// empty trail.
pub open spec fn bob_snap(
    px: u64,
    py: u64,
    omega: u64,
    theta: u64,
    rl: u64,
    rm: u64,
    rc: u32,
    radius: i32,
    mass: u64,
    color: u32,
) -> BobSnap {
    BobSnap {
        pos: Vec2 { x: px, y: py },
        omega,
        theta,
        rod: Rod { length: rl, mass: rm, color: rc },
        trail: Seq::empty(),
        radius,
        mass,
        color,
    }
}

impl Bob {
    /// A bob with the given position, motion state, rod, display
    /// radius, mass and color, and an empty trail.
    pub fn new(
        px: u64,
        py: u64,
        omega: u64,
        theta: u64,
        rl: u64,
        rm: u64,
        rc: u32,
        radius: i32,
        mass: u64,
        color: u32,
    ) -> (r: Bob)
        ensures
            r@ == bob_snap(px, py, omega, theta, rl, rm, rc, radius, mass, color),
    {
        let r = Bob {
            pos: Vec2::new(px, py),
            omega,
            theta,
            radius,
            mass,
            color,
            rod: Rod::new(rl, rm, rc),
            trail: Vec::new(),
        };
        proof {
            assert(r@.trail =~= Seq::<Trail>::empty());
        }
        r
    }

    /// A copy of this bob, field for field, trail included.
    pub fn snapshot(&self) -> (r: Bob)
        ensures
            r@ == self@,
    {
        let r = Bob {
            pos: self.pos,
            omega: self.omega,
            theta: self.theta,
            rod: self.rod,
            trail: self.get_trail(),
            radius: self.radius,
            mass: self.mass,
            color: self.color,
        };
        proof {
            assert(r@ =~= self@);
        }
        r
    }

    /// A copy of the whole trail, oldest point first.
    pub fn get_trail(&self) -> (r: Vec<Trail>)
        ensures
            r@ == self@.trail,
    {
        let mut r: Vec<Trail> = Vec::new();
        let mut i: usize = 0;
        while i < self.trail.len()
            invariant
                i <= self.trail.len(),
                r@ == self.trail@.take(i as int),
            decreases self.trail.len() - i,
        {
            let p = self.trail[i];
            r.push(p);
            proof {
                assert(r@ =~= self.trail@.take(i + 1));
            }
            i = i + 1;
        }
        proof {
            assert(r@ =~= self.trail@);
        }
        r
    }

    /// Records a trail point: appends it, then evicts the oldest point
    /// if the trail now holds more than `max` points (first in, first
    /// out).  The capacity is the caller's to choose, per call.
    pub fn add_trail_point(&mut self, pos: Vec2, color: u32, max: usize)
        ensures
            final(self)@ == (BobSnap {
                trail: trail_step(old(self)@.trail, (Trail { pos, color }), max as nat),
                ..old(self)@
            }),
    {
        self.trail.push(Trail { pos, color });
        if self.trail.len() > max {
            self.trail.remove(0);
            proof {
                assert(self.trail@ =~= trail_step(
                    old(self)@.trail,
                    (Trail { pos, color }),
                    max as nat,
                ));
            }
        }
        proof {
            assert(self@ =~= (BobSnap {
                trail: trail_step(old(self)@.trail, (Trail { pos, color }), max as nat),
                ..old(self)@
            }));
        }
    }
}

} // verus!
