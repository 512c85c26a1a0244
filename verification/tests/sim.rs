use mcsim::accept::metropolis_accept;
use mcsim::energy::{energy, particle_energy, system_energy};
use mcsim::engine::{run, run_seeded, translate, trial_move, SimParams};
use mcsim::errors::SimError;
use mcsim::fixed::Fixed;
use mcsim::metric::squared_distance;
use mcsim::potential::{LennardJones, Mie, PairPotential};
use mcsim::rng::{rng_from_seed, rng_index, rng_next_u64};
use mcsim::vec3::Vector3D;

const SCALE: i128 = 0x1_0000_0000;

fn fx(n: i64) -> Fixed {
    Fixed::from_int(n)
}

fn v3(x: i64, y: i64, z: i64) -> Vector3D {
    Vector3D::new(fx(x), fx(y), fx(z))
}

fn unit_lj() -> LennardJones {
    LennardJones::new(fx(1), fx(1)).unwrap()
}

#[test]
fn from_int_uses_the_scale() {
    assert_eq!(fx(3).v, 3 * SCALE);
    assert_eq!(fx(-2).v, -2 * SCALE);
    assert_eq!(Fixed::from_raw(7).v, 7);
    assert_eq!(fx(2).neg().v, -2 * SCALE);
    assert_eq!(fx(5).sub(fx(9)).v, -4 * SCALE);
}

#[test]
fn metric_direct_distance() {
    // Distance 1 along z in a box of side 10: squared distance exactly 1.
    let l = fx(10);
    let a = v3(0, 0, 0);
    let b = v3(0, 0, 1);
    let d2 = squared_distance(&a, &b, &l);
    assert_eq!(d2.v, SCALE);
}

#[test]
fn metric_wraps_across_the_boundary() {
    // Separation 8 per axis wraps to 2 per axis: 3 * 4 = 12.
    let l = fx(10);
    let a = v3(1, 1, 1);
    let b = v3(9, 9, 9);
    let d2 = squared_distance(&a, &b, &l);
    assert_eq!(d2.v, 12 * SCALE);
}

#[test]
fn metric_is_symmetric() {
    let l = fx(10);
    let a = v3(1, 2, 3);
    let b = v3(9, 5, 7);
    assert_eq!(squared_distance(&a, &b, &l).v, squared_distance(&b, &a, &l).v);
}

#[test]
fn minimum_image_is_minimum_over_27_images() {
    // The computed value equals the minimum over all 27 periodic images,
    // each image distance evaluated with the same fixed-point squaring.
    let l = fx(10);
    let cases = [
        (v3(1, 1, 1), v3(9, 9, 9)),
        (v3(0, 0, 0), v3(5, 5, 5)),
        (v3(2, 7, 4), v3(8, 1, 6)),
        (v3(0, 3, 9), v3(9, 0, 1)),
    ];
    for (a, b) in cases {
        let got = squared_distance(&a, &b, &l).v;
        let mut best: i128 = i128::MAX;
        for kx in -1..=1i128 {
            for ky in -1..=1i128 {
                for kz in -1..=1i128 {
                    let dx = (a.x.v - b.x.v) - kx * l.v;
                    let dy = (a.y.v - b.y.v) - ky * l.v;
                    let dz = (a.z.v - b.z.v) - kz * l.v;
                    let img = dx * dx / SCALE + dy * dy / SCALE + dz * dz / SCALE;
                    if img < best {
                        best = img;
                    }
                }
            }
        }
        assert_eq!(got, best);
    }
}

#[test]
fn lj_energy_is_zero_at_unit_distance() {
    // sigma = r = 1 makes (sigma^2/r^2)^6 == (sigma^2/r^2)^3 exactly.
    let lj = unit_lj();
    let e = lj.energy(&fx(1));
    assert_eq!(e.v, 0);
}

#[test]
fn lj_energy_is_negative_in_the_attractive_well() {
    // r^2 = 4 (r = 2 sigma): the attractive term dominates.
    let lj = unit_lj();
    let e = lj.energy(&fx(4));
    assert!(e.v < 0);
}

#[test]
fn two_particle_system_energy_matches_the_formula() {
    // Two particles at distance 1, sigma = epsilon = 1, rc^2 = 9:
    // total energy is exactly 4 * (1 - 1) = 0.
    let particles = vec![v3(0, 0, 0), v3(0, 0, 1)];
    let e = energy(&particles, &fx(10), &fx(9));
    assert_eq!(e.v, 0);
}

#[test]
fn engine_with_zero_cycles_keeps_the_initial_energy() {
    let mut particles = vec![v3(0, 0, 0), v3(0, 0, 1)];
    let params = SimParams::new(fx(10), fx(9), fx(1), Fixed::from_raw(3 * SCALE / 10)).unwrap();
    let lj = unit_lj();
    let mut rng = rng_from_seed(1, 2, 3, 4);
    let (final_energy, reports) = run(&mut particles, &params, &lj, 0, 2, &mut rng).unwrap();
    assert_eq!(final_energy.v, 0);
    assert!(reports.is_empty());
    assert_eq!(particles, vec![v3(0, 0, 0), v3(0, 0, 1)]);
}

#[test]
fn cutoff_is_inclusive_at_the_boundary() {
    // d^2 is exactly 9; a cutoff of exactly 9 includes the pair, while a
    // cutoff one raw unit below excludes it (d^2 = rc^2 + tiny excess).
    let particles = vec![v3(0, 0, 0), v3(0, 0, 3)];
    let l = fx(10);
    let at_boundary = energy(&particles, &l, &fx(9));
    assert!(at_boundary.v != 0);
    let just_below = energy(&particles, &l, &Fixed::from_raw(9 * SCALE - 1));
    assert_eq!(just_below.v, 0);
}

#[test]
fn total_energy_double_counts_single_energies() {
    // The sum of the single-particle energies is exactly twice the total.
    let particles = vec![v3(0, 0, 0), v3(0, 0, 2), v3(3, 1, 0), v3(7, 8, 2)];
    let l = fx(10);
    let rc2 = fx(25);
    let total = energy(&particles, &l, &rc2);
    let mut sum: i128 = 0;
    for i in 0..particles.len() {
        sum += particle_energy(&particles, i, &l, &rc2).v;
    }
    assert_eq!(sum, 2 * total.v);
}

#[test]
fn mie_12_6_degenerates_to_lennard_jones() {
    let lj = unit_lj();
    let mie = Mie::new(fx(1), fx(1), 12, 6).unwrap();
    assert_eq!(mie.prefac.v, 4 * SCALE);
    for r2 in [fx(1), fx(2), fx(4), fx(9), Fixed::from_raw(3 * SCALE / 2)] {
        assert_eq!(mie.energy(&r2).v, lj.energy(&r2).v);
    }
}

#[test]
fn mie_generic_system_energy_matches_lj_at_12_6() {
    let particles = vec![v3(0, 0, 0), v3(0, 0, 2), v3(3, 1, 0)];
    let l = fx(10);
    let rc2 = fx(25);
    let lj = unit_lj();
    let mie = Mie::new(fx(1), fx(1), 12, 6).unwrap();
    assert_eq!(
        system_energy(&lj, &particles, &l, &rc2).v,
        system_energy(&mie, &particles, &l, &rc2).v
    );
}

#[test]
fn potential_parameters_are_validated() {
    assert_eq!(LennardJones::new(fx(0), fx(1)).unwrap_err(), SimError::BadPotentialParams);
    assert_eq!(LennardJones::new(fx(1), fx(-1)).unwrap_err(), SimError::BadPotentialParams);
    assert_eq!(Mie::new(fx(0), fx(1), 12, 6).unwrap_err(), SimError::BadPotentialParams);
    // n <= m, odd exponents, and a non-dividing gap are all rejected.
    assert_eq!(Mie::new(fx(1), fx(1), 6, 12).unwrap_err(), SimError::BadMieExponents);
    assert_eq!(Mie::new(fx(1), fx(1), 13, 6).unwrap_err(), SimError::BadMieExponents);
    assert_eq!(Mie::new(fx(1), fx(1), 10, 4).unwrap_err(), SimError::BadMieExponents);
    assert!(Mie::new(fx(1), fx(1), 8, 4).is_ok());
}

#[test]
fn simulation_parameters_are_validated() {
    let disp = Fixed::from_raw(3 * SCALE / 10);
    assert_eq!(
        SimParams::new(fx(0), fx(9), fx(1), disp).unwrap_err(),
        SimError::BadBoxLength
    );
    assert_eq!(
        SimParams::new(fx(10), fx(-1), fx(1), disp).unwrap_err(),
        SimError::BadCutoff
    );
    assert_eq!(
        SimParams::new(fx(10), fx(9), fx(0), disp).unwrap_err(),
        SimError::BadTemperature
    );
    assert_eq!(
        SimParams::new(fx(10), fx(9), fx(1), fx(-1)).unwrap_err(),
        SimError::BadDisplacementRange
    );
    // A temperature so large that the inverse rounds to zero is rejected.
    assert_eq!(
        SimParams::new(fx(10), fx(9), Fixed::from_raw(1i128 << 72), disp).unwrap_err(),
        SimError::BadTemperature
    );
    let p = SimParams::new(fx(10), fx(9), fx(1), disp).unwrap();
    assert_eq!(p.beta.v, SCALE); // 1 / 1 == 1
    let p2 = SimParams::new(fx(10), fx(9), fx(2), disp).unwrap();
    assert_eq!(p2.beta.v, SCALE / 2); // 1 / 2 == 0.5 exactly
}

#[test]
fn metropolis_accepts_nonincreasing_energy() {
    let beta = fx(1);
    assert!(metropolis_accept(&beta, &fx(0), u64::MAX));
    assert!(metropolis_accept(&beta, &fx(-5), u64::MAX));
}

#[test]
fn metropolis_threshold_is_exact_at_unit_exponent() {
    // beta * delta = 1 quantizes to q = 2^16, whose threshold is the
    // table entry for exp(-1); the comparison with u is strict.
    let beta = fx(1);
    let delta = fx(1);
    let t: u64 = 0x5e2d58d8b3bcdf1b;
    assert!(metropolis_accept(&beta, &delta, t - 1));
    assert!(!metropolis_accept(&beta, &delta, t));
}

#[test]
fn metropolis_rejects_beyond_the_cap() {
    // beta * delta = 20 >= 16: the acceptance probability is taken as 0.
    assert!(!metropolis_accept(&fx(1), &fx(20), 0));
}

#[test]
fn trial_move_returns_the_recomputed_delta_or_rolls_back() {
    let params = SimParams::new(fx(10), fx(9), fx(1), Fixed::from_raw(3 * SCALE / 10)).unwrap();
    let lj = unit_lj();
    let mut accepted_seen = false;
    let mut rejected_seen = false;
    for seed in 1..40u32 {
        let mut rng = rng_from_seed(seed, 2 * seed, 3 * seed, 4 * seed);
        let mut particles = vec![v3(0, 0, 0), v3(0, 0, 1), v3(1, 1, 0)];
        let snapshot = particles.clone();
        let idx = rng_index(&mut rng, particles.len());
        let d0 = rng_next_u64(&mut rng);
        let d1 = rng_next_u64(&mut rng);
        let d2 = rng_next_u64(&mut rng);
        let u = rng_next_u64(&mut rng);
        let before = particle_energy(&particles, idx, &params.l, &params.rc2);
        let de = trial_move(&mut particles, &params, &lj, idx, d0, d1, d2, u).unwrap();
        if particles == snapshot {
            // Rejected: the system is bit-identical and the delta is zero.
            rejected_seen = true;
            assert_eq!(de.v, 0);
        } else {
            // Accepted: the delta equals after - before, recomputed
            // independently via the single-particle energy.
            accepted_seen = true;
            let after = particle_energy(&particles, idx, &params.l, &params.rc2);
            assert_eq!(de.v, after.v - before.v);
        }
    }
    assert!(accepted_seen);
    assert!(rejected_seen);
}

#[test]
fn trial_move_reports_coordinate_overflow_and_keeps_the_state() {
    // A displacement range at the coordinate cap pushes the particle out
    // of the representable range whatever the draw.
    let cmax = 0x4000_0000_0000_0000i128;
    let params = SimParams::new(fx(10), fx(9), fx(1), Fixed::from_raw(cmax)).unwrap();
    let lj = unit_lj();
    let mut particles = vec![Vector3D::new(
        Fixed::from_raw(cmax - SCALE),
        fx(0),
        fx(0),
    )];
    let snapshot = particles.clone();
    let r = trial_move(&mut particles, &params, &lj, 0, u64::MAX, 0, 0, 0);
    assert_eq!(r.unwrap_err(), SimError::CoordinateOverflow);
    assert_eq!(particles, snapshot);
}

#[test]
fn fixed_seed_reproduces_the_whole_run() {
    let params = SimParams::new(fx(10), fx(9), fx(1), Fixed::from_raw(3 * SCALE / 10)).unwrap();
    let lj = unit_lj();
    let start = vec![
        v3(0, 0, 0),
        v3(0, 0, 2),
        v3(0, 2, 0),
        v3(2, 0, 0),
        v3(2, 2, 0),
        v3(2, 0, 2),
        v3(0, 2, 2),
        v3(2, 2, 2),
    ];
    let mut a = start.clone();
    let mut b = start.clone();
    let n = a.len() as u32;
    let (ea, ra) = run_seeded(&mut a, &params, &lj, 25, n, 1, 2, 3, 4).unwrap();
    let (eb, rb) = run_seeded(&mut b, &params, &lj, 25, n, 1, 2, 3, 4).unwrap();
    assert_eq!(ea.v, eb.v);
    assert_eq!(ra, rb);
    assert_eq!(a, b);
    // Three reports: after sweeps 0, 10 and 20.
    assert_eq!(ra.len(), 3);
    // A different seed gives a different trajectory.
    let mut c = start.clone();
    let (_ec, _rc) = run_seeded(&mut c, &params, &lj, 25, n, 5, 6, 7, 8).unwrap();
    assert!(c != a || _ec.v != ea.v);
}

#[test]
fn rng_wrappers_draw_in_range_and_deterministically() {
    let mut r1 = rng_from_seed(9, 8, 7, 6);
    let mut r2 = rng_from_seed(9, 8, 7, 6);
    let mut all_equal = true;
    let mut prev: u64 = 0;
    for i in 0..50usize {
        let idx = rng_index(&mut r1, 7);
        assert!(idx < 7);
        assert_eq!(idx, rng_index(&mut r2, 7));
        let w = rng_next_u64(&mut r1);
        assert_eq!(w, rng_next_u64(&mut r2));
        if i > 0 && w != prev {
            all_equal = false;
        }
        prev = w;
    }
    assert!(!all_equal);
}

#[test]
fn translate_keeps_the_system_size() {
    let params = SimParams::new(fx(10), fx(9), fx(1), Fixed::from_raw(3 * SCALE / 10)).unwrap();
    let lj = unit_lj();
    let mut rng = rng_from_seed(1, 2, 3, 4);
    let mut particles = vec![v3(0, 0, 0), v3(0, 0, 1), v3(1, 1, 0)];
    for _ in 0..100 {
        let de = translate(&mut particles, &params, &lj, &mut rng).unwrap();
        assert!(de.v.abs() <= 0x20_0000_0000_0000_0000_0000i128);
        assert_eq!(particles.len(), 3);
    }
}

#[test]
fn vector_addition_is_componentwise() {
    let a = v3(1, 2, 3);
    let b = v3(4, 5, 6);
    let c = a.add(b);
    assert_eq!(c, v3(5, 7, 9));
}

#[test]
fn trial_move_applies_the_exact_displacement() {
    // With one particle every move is accepted (the energy change is
    // zero), and a displacement range of 2^19 raw units makes the
    // proposed offset exactly the top 20 bits of the draw minus 2^19.
    let params = SimParams::new(fx(10), fx(9), fx(1), Fixed::from_raw(1 << 19)).unwrap();
    let lj = unit_lj();
    let mut particles = vec![v3(0, 0, 0)];
    let de = trial_move(&mut particles, &params, &lj, 0, u64::MAX, 0, 1 << 44, 0).unwrap();
    assert_eq!(de.v, 0);
    assert_eq!(particles[0].x.v, (1 << 19) - 1); // top bits 2^20 - 1
    assert_eq!(particles[0].y.v, -(1 << 19)); // top bits 0
    assert_eq!(particles[0].z.v, -(1 << 19) + 1); // top bits 1
}

#[test]
fn run_rejects_an_empty_system() {
    let params = SimParams::new(fx(10), fx(9), fx(1), Fixed::from_raw(3 * SCALE / 10)).unwrap();
    let lj = unit_lj();
    let mut particles: Vec<Vector3D> = vec![];
    let r = run_seeded(&mut particles, &params, &lj, 5, 5, 1, 2, 3, 4);
    assert_eq!(r.unwrap_err(), SimError::BadSystemSize);
}
