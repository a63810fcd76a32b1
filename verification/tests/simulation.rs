use pendulum::scalar::{ColorChoice, RealOps};
use pendulum::universe::{Implementation, Outcome, Universe};

struct NativeOps;

impl RealOps for NativeOps {
    fn add(&self, a: u64, b: u64) -> u64 {
        (f64::from_bits(a) + f64::from_bits(b)).to_bits()
    }
    fn sub(&self, a: u64, b: u64) -> u64 {
        (f64::from_bits(a) - f64::from_bits(b)).to_bits()
    }
    fn mul(&self, a: u64, b: u64) -> u64 {
        (f64::from_bits(a) * f64::from_bits(b)).to_bits()
    }
    fn div(&self, a: u64, b: u64) -> u64 {
        (f64::from_bits(a) / f64::from_bits(b)).to_bits()
    }
    fn sin(&self, a: u64) -> u64 {
        f64::from_bits(a).sin().to_bits()
    }
    fn cos(&self, a: u64) -> u64 {
        f64::from_bits(a).cos().to_bits()
    }
    fn square(&self, a: u64) -> u64 {
        f64::from_bits(a).powi(2).to_bits()
    }
    fn sqrt(&self, a: u64) -> u64 {
        f64::from_bits(a).sqrt().to_bits()
    }
    fn of_uint(&self, n: usize) -> u64 {
        (n as f64).to_bits()
    }
    fn solve_linear(&self, m: &Vec<Vec<u64>>, rhs: &Vec<u64>) -> Option<Vec<u64>> {
        let n = rhs.len();
        let mat = nalgebra::DMatrix::from_fn(n, n, |i, j| f64::from_bits(m[i][j]));
        let vec = nalgebra::DVector::from_fn(n, |i, _| f64::from_bits(rhs[i]));
        nalgebra::LU::new(mat)
            .solve(&vec)
            .map(|x| x.iter().map(|v| v.to_bits()).collect())
    }
}

struct FixedColors {
    next: usize,
}

impl ColorChoice for FixedColors {
    fn pick(&mut self, _n: usize) -> usize {
        let v = self.next;
        self.next += 1;
        v
    }
}

fn bits(x: f64) -> u64 {
    x.to_bits()
}

fn angles(u: &Universe) -> Vec<(u64, u64, u64, u64)> {
    u.get_bobs()
        .iter()
        .map(|b| (b.theta, b.omega, b.pos.x, b.pos.y))
        .collect()
}

/// The forward-kinematics invariant: every bob sits at its
/// predecessor's position plus its own rod vector.
fn check_forward_kinematics(u: &Universe) {
    let bobs = u.get_bobs();
    let mut px = 0.0f64;
    let mut py = 0.0f64;
    for b in bobs.iter() {
        let l = f64::from_bits(b.rod.length);
        let th = f64::from_bits(b.theta);
        let ex = px + l * th.sin();
        let ey = py + l * th.cos();
        assert_eq!(f64::from_bits(b.pos.x), ex);
        assert_eq!(f64::from_bits(b.pos.y), ey);
        px = ex;
        py = ey;
    }
}

#[test]
fn default_universe_shape() {
    let u = Universe::new();
    assert_eq!(u.get_bob_count(), 2);
    assert_eq!(f64::from_bits(u.get_gravity()), 9.8);
    assert_eq!(f64::from_bits(u.get_speed()), 1.0 / 20.0);
    assert!(!u.get_is_paused());
    assert_eq!(u.get_implementation(), Implementation::Euler);
    let bobs = u.get_bobs();
    assert_eq!(bobs.len(), 2);
    let pi_2 = std::f64::consts::PI / 2.0;
    for b in bobs.iter() {
        assert_eq!(f64::from_bits(b.theta), pi_2);
        assert_eq!(f64::from_bits(b.omega), 0.0);
        assert_eq!(f64::from_bits(b.rod.length), 100.0);
        assert_eq!(f64::from_bits(b.rod.mass), 10.0);
        assert_eq!(b.rod.color, 0x0f0f0f);
        assert_eq!(b.radius, 10);
        assert_eq!(f64::from_bits(b.mass), 100.0);
        assert_eq!(b.get_trail().len(), 0);
    }
    assert_eq!(f64::from_bits(bobs[0].pos.x), 100.0);
    assert_eq!(f64::from_bits(bobs[0].pos.y), 0.0);
    assert_eq!(bobs[0].color, 0xff0000);
    assert_eq!(f64::from_bits(bobs[1].pos.x), 200.0);
    assert_eq!(f64::from_bits(bobs[1].pos.y), 0.0);
    assert_eq!(bobs[1].color, 0x0000ff);
}

#[test]
fn euler_tick_applies_and_keeps_kinematics() {
    let mut u = Universe::new();
    let before = angles(&u);
    let r = u.time_step(bits(1.0), &NativeOps);
    assert_eq!(r, Outcome::Applied);
    let after = angles(&u);
    assert_ne!(before[0].0, after[0].0, "the first angle should move");
    check_forward_kinematics(&u);
    let bobs = u.get_bobs();
    for b in bobs.iter() {
        let trail = b.get_trail();
        assert_eq!(trail.len(), 1);
        assert_eq!(trail[0].pos.x, b.pos.x);
        assert_eq!(trail[0].pos.y, b.pos.y);
        assert_eq!(trail[0].color, b.color);
    }
}

#[test]
fn rk4_tick_applies_and_keeps_kinematics() {
    let mut u = Universe::new();
    u.set_implementation(Implementation::RK4);
    let before = angles(&u);
    let r = u.time_step(bits(1.0), &NativeOps);
    assert_eq!(r, Outcome::Applied);
    let after = angles(&u);
    assert_ne!(before[0].0, after[0].0);
    check_forward_kinematics(&u);
    assert_eq!(u.get_bobs()[0].get_trail().len(), 1);
}

#[test]
fn kinematics_hold_over_many_ticks() {
    let mut u = Universe::new();
    for _ in 0..25 {
        assert_eq!(u.time_step(bits(1.0), &NativeOps), Outcome::Applied);
        check_forward_kinematics(&u);
    }
    u.set_implementation(Implementation::RK4);
    for _ in 0..25 {
        assert_eq!(u.time_step(bits(1.0), &NativeOps), Outcome::Applied);
        check_forward_kinematics(&u);
    }
}

#[test]
fn zero_step_leaves_state_unchanged() {
    let mut u = Universe::new();
    u.time_step(bits(1.0), &NativeOps);
    let before = angles(&u);
    let r = u.time_step(bits(0.0), &NativeOps);
    assert_eq!(r, Outcome::Applied);
    assert_eq!(angles(&u), before, "a zero step must not move the state");
    // the trail still records a point at the unchanged position
    assert_eq!(u.get_bobs()[0].get_trail().len(), 2);

    let mut v = Universe::new();
    v.set_implementation(Implementation::RK4);
    v.time_step(bits(1.0), &NativeOps);
    let before = angles(&v);
    assert_eq!(v.time_step(bits(0.0), &NativeOps), Outcome::Applied);
    assert_eq!(angles(&v), before);
}

#[test]
fn paused_universe_skips() {
    let mut u = Universe::new();
    u.set_is_paused(true);
    assert!(u.get_is_paused());
    let before = angles(&u);
    let r = u.time_step(bits(1.0), &NativeOps);
    assert_eq!(r, Outcome::Skipped);
    assert_eq!(angles(&u), before);
    assert_eq!(u.get_bobs()[0].get_trail().len(), 0);
}

#[test]
fn empty_universe_skips() {
    let mut u = Universe::new();
    u.remove_bob();
    u.remove_bob();
    assert_eq!(u.get_bob_count(), 0);
    let r = u.time_step(bits(1.0), &NativeOps);
    assert_eq!(r, Outcome::Skipped);
    assert_eq!(u.get_bob_count(), 0);
}

#[test]
fn stability_cutoff_truncates_to_cap() {
    let mut u = Universe::new();
    for i in 0..120 {
        u.add_bob(
            bits(0.0),
            bits(0.0),
            bits(0.0),
            bits(0.1 + (i as f64) * 0.01),
            bits(50.0),
            bits(5.0),
            0x123456,
            5,
            bits(20.0),
            0x00ff00,
        );
    }
    assert_eq!(u.get_bob_count(), 122);
    let r = u.time_step(bits(1.0), &NativeOps);
    assert_eq!(r, Outcome::Applied);
    assert_eq!(u.get_bob_count(), 100, "the chain must be cut to the cap");
}

#[test]
fn hamiltonian_reports_not_implemented() {
    let mut u = Universe::new();
    u.set_implementation(Implementation::Hamiltonian);
    assert_eq!(u.get_implementation(), Implementation::Hamiltonian);
    let before = angles(&u);
    let r = u.time_step(bits(1.0), &NativeOps);
    assert_eq!(r, Outcome::NotImplemented);
    assert_eq!(angles(&u), before);
    assert_eq!(u.get_bobs()[0].get_trail().len(), 0);
}

#[test]
fn nan_acceleration_aborts_and_preserves_state() {
    let mut u = Universe::new();
    u.remove_bob();
    u.remove_bob();
    // equal angles make sin(theta[0] - theta[1]) an exact zero, and an
    // enormous second velocity makes omega^2 infinite: the forcing
    // vector then holds 0 * inf = NaN and the solve returns NaN.
    u.add_bob(
        bits(0.0),
        bits(0.0),
        bits(0.0),
        bits(0.3),
        bits(100.0),
        bits(10.0),
        0x0f0f0f,
        10,
        bits(100.0),
        0xff0000,
    );
    u.add_bob(
        bits(0.0),
        bits(0.0),
        bits(1.0e200),
        bits(0.3),
        bits(100.0),
        bits(10.0),
        0x0f0f0f,
        10,
        bits(100.0),
        0x0000ff,
    );
    let before = angles(&u);
    let r = u.time_step(bits(1.0), &NativeOps);
    assert_eq!(r, Outcome::Aborted);
    assert_eq!(angles(&u), before, "an aborted tick must not move the state");
    assert_eq!(u.get_bobs()[0].get_trail().len(), 0);
}

#[test]
fn identical_runs_are_bit_identical() {
    let dts = [1.0, 0.5, 2.0, 1.0, 0.25];
    let mut a = Universe::new();
    let mut b = Universe::new();
    for dt in dts {
        a.time_step(bits(dt), &NativeOps);
        b.time_step(bits(dt), &NativeOps);
    }
    assert_eq!(angles(&a), angles(&b));
}

#[test]
fn update_bob_theta_recomputes_positions() {
    let mut u = Universe::new();
    let before = angles(&u);
    u.update_bob_theta(0, bits(0.4), &NativeOps);
    let bobs = u.get_bobs();
    assert_eq!(f64::from_bits(bobs[0].theta), 0.4);
    assert_eq!(bobs[1].theta, before[1].0, "the other angle keeps its value");
    assert_eq!(bobs[0].omega, before[0].1);
    check_forward_kinematics(&u);
}

#[test]
fn update_bob_length_recomputes_positions() {
    let mut u = Universe::new();
    let before = angles(&u);
    u.update_bob_length(1, bits(35.0), &NativeOps);
    let bobs = u.get_bobs();
    assert_eq!(f64::from_bits(bobs[1].rod.length), 35.0);
    assert_eq!(bobs[1].theta, before[1].0);
    assert_eq!(f64::from_bits(bobs[0].rod.length), 100.0);
    assert_eq!((bobs[0].pos.x, bobs[0].pos.y), (before[0].2, before[0].3));
    // only the mutated bob and its successors are repositioned, each
    // chaining from its predecessor's stored position
    let th1 = f64::from_bits(bobs[1].theta);
    let ex = f64::from_bits(bobs[0].pos.x) + 35.0 * th1.sin();
    let ey = f64::from_bits(bobs[0].pos.y) + 35.0 * th1.cos();
    assert_eq!(f64::from_bits(bobs[1].pos.x), ex);
    assert_eq!(f64::from_bits(bobs[1].pos.y), ey);
}

#[test]
fn update_bob_mass_touches_only_mass() {
    let mut u = Universe::new();
    let before = angles(&u);
    u.update_bob_mass(1, bits(7.5));
    let bobs = u.get_bobs();
    assert_eq!(f64::from_bits(bobs[1].mass), 7.5);
    assert_eq!(f64::from_bits(bobs[0].mass), 100.0);
    assert_eq!(angles(&u), before);
}

#[test]
fn out_of_range_mutators_are_ignored() {
    let mut u = Universe::new();
    let before = angles(&u);
    u.update_bob_theta(2, bits(0.4), &NativeOps);
    u.update_bob_length(7, bits(35.0), &NativeOps);
    u.update_bob_mass(9, bits(7.5));
    assert_eq!(angles(&u), before);
    assert!(u.get_bob(2).is_none());
    assert!(u.get_bob(1).is_some());
}

#[test]
fn remove_bob_pops_the_tail() {
    let mut u = Universe::new();
    u.remove_bob();
    assert_eq!(u.get_bob_count(), 1);
    assert_eq!(u.get_bob(0).unwrap().color, 0xff0000);
    u.remove_bob();
    assert_eq!(u.get_bob_count(), 0);
    u.remove_bob();
    assert_eq!(u.get_bob_count(), 0);
}

#[test]
fn reset_restores_the_default_state() {
    let mut u = Universe::new();
    u.set_gravity(bits(3.7));
    u.set_speed(bits(0.5));
    u.set_is_paused(true);
    u.set_implementation(Implementation::RK4);
    u.remove_bob();
    u.reset();
    assert_eq!(u.get_bob_count(), 2);
    assert_eq!(f64::from_bits(u.get_gravity()), 9.8);
    assert_eq!(f64::from_bits(u.get_speed()), 1.0 / 20.0);
    assert!(!u.get_is_paused());
    assert_eq!(u.get_implementation(), Implementation::Euler);
}

#[test]
fn setters_and_getters_round_trip() {
    let mut u = Universe::new();
    u.set_gravity(bits(1.62));
    assert_eq!(f64::from_bits(u.get_gravity()), 1.62);
    u.set_speed(bits(0.125));
    assert_eq!(f64::from_bits(u.get_speed()), 0.125);
    u.set_is_paused(true);
    assert!(u.get_is_paused());
    u.set_is_paused(false);
    assert!(!u.get_is_paused());
    u.set_implementation(Implementation::RK4);
    assert_eq!(u.get_implementation(), Implementation::RK4);
}

#[test]
fn get_trails_matches_each_bob() {
    let mut u = Universe::new();
    u.time_step(bits(1.0), &NativeOps);
    u.time_step(bits(1.0), &NativeOps);
    let trails = u.get_trails();
    let bobs = u.get_bobs();
    assert_eq!(trails.len(), bobs.len());
    for (t, b) in trails.iter().zip(bobs.iter()) {
        assert_eq!(t.len(), 2);
        let own = b.get_trail();
        assert_eq!(t.len(), own.len());
        for (p, q) in t.iter().zip(own.iter()) {
            assert_eq!((p.pos.x, p.pos.y, p.color), (q.pos.x, q.pos.y, q.color));
        }
        let last = &t[t.len() - 1];
        assert_eq!((last.pos.x, last.pos.y), (b.pos.x, b.pos.y));
    }
}

#[test]
fn add_bob_simple_chains_from_the_last_bob() {
    let mut u = Universe::new();
    let mut colors = FixedColors { next: 3 };
    let last = u.get_bob(1).unwrap();
    u.add_bob_simple(bits(0.5), &NativeOps, &mut colors);
    assert_eq!(u.get_bob_count(), 3);
    let b = u.get_bob(2).unwrap();
    assert_eq!(f64::from_bits(b.theta), 0.5);
    assert_eq!(f64::from_bits(b.omega), 0.0);
    assert_eq!(f64::from_bits(b.rod.length), 100.0);
    assert_eq!(f64::from_bits(b.rod.mass), 10.0);
    assert_eq!(b.rod.color, 0x0f0f0f);
    assert_eq!(b.radius, 10);
    assert_eq!(f64::from_bits(b.mass), 10.0);
    assert_eq!(b.color, 0xf0f000, "pick 3 lands on the fourth palette color");
    let ex = f64::from_bits(last.pos.x) + 100.0 * 0.5f64.sin();
    let ey = f64::from_bits(last.pos.y) + 100.0 * 0.5f64.cos();
    assert_eq!(f64::from_bits(b.pos.x), ex);
    assert_eq!(f64::from_bits(b.pos.y), ey);
}

#[test]
fn add_bob_simple_on_an_empty_chain_starts_at_the_origin() {
    let mut u = Universe::new();
    u.remove_bob();
    u.remove_bob();
    let mut colors = FixedColors { next: 0 };
    u.add_bob_simple(bits(0.7), &NativeOps, &mut colors);
    let b = u.get_bob(0).unwrap();
    assert_eq!(b.color, 0xff0000);
    assert_eq!(f64::from_bits(b.pos.x), 100.0 * 0.7f64.sin());
    assert_eq!(f64::from_bits(b.pos.y), 100.0 * 0.7f64.cos());
}

#[test]
fn random_color_with_the_default_choice_stays_in_the_palette() {
    let palette = [0xff0000u32, 0x0000ff, 0x00ff00, 0xf0f000, 0x00f0f0, 0xf000f0];
    let mut colors = pendulum::scalar::RandomChoice;
    for _ in 0..64 {
        let c = Universe::random_color(&mut colors);
        assert!(palette.contains(&c), "every draw must land in the palette");
    }
}

#[test]
fn random_color_draws_from_the_palette() {
    let palette = [0xff0000u32, 0x0000ff, 0x00ff00, 0xf0f000, 0x00f0f0, 0xf000f0];
    let mut colors = FixedColors { next: 0 };
    for i in 0..12 {
        let c = Universe::random_color(&mut colors);
        assert_eq!(c, palette[i % 6], "the choice is reduced modulo the palette");
    }
}
