//! The Metropolis Monte-Carlo engine: validated simulation parameters,
//! one trial move (select, snapshot, evaluate, propose, evaluate, decide,
//! apply or roll back), and the outer cycle loop that accumulates the
//! running energy and samples it after every tenth sweep.

use vstd::prelude::*;

verus! {

use crate::fixed::{Fixed, SCALE, SAT, tdiv, div_spec, ADD_LIM};
use crate::vec3::Vector3D;
use crate::metric::CMAX;
use crate::potential::PairPotential;
use crate::energy::{
    sp_single,
    sp_total,
    sp_all_bounded,
    single_particle_energy,
    system_energy,
    NMAX,
};
use crate::accept::{sp_accept, metropolis_accept, BETA_LIM, DELTA_LIM};
use crate::errors::SimError;
use crate::rng::{rng_from_seed, rng_index, rng_next_u64};

/// Raw bound on the running energy accumulator: 2^110.
pub const RUN_LIM: i128 = 0x4000_0000_0000_0000_0000_0000_0000;

/// Validated simulation parameters: box side, squared cutoff, inverse
/// temperature and the maximum per-axis displacement of a trial move.
#[derive(Clone, Copy, Debug, PartialEq, Eq, Structural)]
pub struct SimParams {
    pub l: Fixed,
    pub rc2: Fixed,
    pub beta: Fixed,
    pub max_disp: Fixed,
}

impl SimParams {
    /// All fields are within the ranges the engine relies on.
    pub open spec fn wf(self) -> bool {
        0 < self.l.v <= CMAX && 0 <= self.rc2.v && 0 < self.beta.v <= BETA_LIM && 0
            <= self.max_disp.v <= CMAX
    }

    /// Validate a configuration: box side and temperature positive,
    /// cutoff and displacement range nonnegative, all in range. The
    /// inverse temperature is the fixed-point quotient `1 / temperature`.
    pub fn new(l: Fixed, rc2: Fixed, temperature: Fixed, max_disp: Fixed) -> (r: Result<
        SimParams,
        SimError,
    >)
        ensures
            r is Ok <==> (0 < l.v <= CMAX && 0 <= rc2.v && temperature.v > 0 && 0 < div_spec(
                SCALE as int,
                temperature.v as int,
            ) <= BETA_LIM && 0 <= max_disp.v <= CMAX),
            r matches Ok(p) ==> p.l == l && p.rc2 == rc2 && p.max_disp == max_disp && p.beta.v
                == div_spec(SCALE as int, temperature.v as int) && p.wf(),
            r == Result::<SimParams, SimError>::Err(SimError::BadBoxLength) <==> !(0 < l.v
                <= CMAX),
            r == Result::<SimParams, SimError>::Err(SimError::BadCutoff) <==> (0 < l.v <= CMAX
                && rc2.v < 0),
            r == Result::<SimParams, SimError>::Err(SimError::BadTemperature) <==> (0 < l.v <= CMAX
                && 0 <= rc2.v && !(temperature.v > 0 && 0 < div_spec(
                SCALE as int,
                temperature.v as int,
            ) <= BETA_LIM)),
            r == Result::<SimParams, SimError>::Err(SimError::BadDisplacementRange) <==> (0 < l.v
                <= CMAX && 0 <= rc2.v && (temperature.v > 0 && 0 < div_spec(
                SCALE as int,
                temperature.v as int,
            ) <= BETA_LIM) && !(0 <= max_disp.v <= CMAX)),
    {
        if l.v <= 0 || l.v > CMAX {
            return Err(SimError::BadBoxLength);
        }
        if rc2.v < 0 {
            return Err(SimError::BadCutoff);
        }
        if temperature.v <= 0 {
            return Err(SimError::BadTemperature);
        }
        let one: Fixed = Fixed { v: SCALE };
        let beta: Fixed = one.div_sat(temperature);
        if beta.v <= 0 || beta.v > BETA_LIM {
            return Err(SimError::BadTemperature);
        }
        if max_disp.v < 0 || max_disp.v > CMAX {
            return Err(SimError::BadDisplacementRange);
        }
        Ok(SimParams { l, rc2, beta, max_disp })
    }
}

/// The proposed per-axis displacement for the 64 random bits `d`: the
/// top 20 bits are mapped affinely onto `[-max, max)` in steps of
/// `max / 2^19`.
pub open spec fn sp_disp(d: u64, max: int) -> int {
    tdiv(max * ((d as int) / 0x1000_0000_0000 - 0x8_0000), 0x8_0000)
}

/// The proposed position of a trial move, from the snapshot `p` and the
/// three displacement draws.
pub open spec fn sp_new_pos(p: Vector3D, d0: u64, d1: u64, d2: u64, max: int) -> Vector3D {
    Vector3D {
        x: Fixed { v: (p.x.v + sp_disp(d0, max)) as i128 },
        y: Fixed { v: (p.y.v + sp_disp(d1, max)) as i128 },
        z: Fixed { v: (p.z.v + sp_disp(d2, max)) as i128 },
    }
}

/// Compute the displacement for one axis.
fn disp_from_draw(d: u64, max_disp: &Fixed) -> (r: Fixed)
    requires
        0 <= max_disp.v <= CMAX,
    ensures
        r.v as int == sp_disp(d, max_disp.v as int),
        r.bounded(max_disp.v as int),
{
    let top: u64 = d / 0x1000_0000_0000;
    let off: i128 = (top as i128) - 0x8_0000;
    proof {
        assert(0 <= (d as int) / 0x1000_0000_0000 < 0x10_0000) by (nonlinear_arith)
            requires
                0 <= (d as int) < 0x1_0000_0000_0000_0000,
        ;
        assert(-(0x8_0000) * CMAX <= max_disp.v * off && max_disp.v * off <= 0x8_0000 * CMAX)
            by (nonlinear_arith)
            requires
                0 <= max_disp.v <= CMAX,
                -(0x8_0000) <= off < 0x8_0000,
        ;
    }
    let p: i128 = max_disp.v * off;
    let pm: u128 = if p >= 0 {
        p as u128
    } else {
        (-p) as u128
    };
    proof {
        assert((pm as int) / 0x8_0000 <= pm as int) by (nonlinear_arith);
    }
    let q: u128 = pm / 0x8_0000;
    let r: i128 = if p >= 0 {
        q as i128
    } else {
        -(q as i128)
    };
    proof {
        assert(tdiv(max_disp.v * off, 0x8_0000) <= max_disp.v && -(max_disp.v as int) <= tdiv(
            max_disp.v * off,
            0x8_0000,
        )) by (nonlinear_arith)
            requires
                0 <= max_disp.v,
                -(0x8_0000) <= off < 0x8_0000,
                p == max_disp.v * off,
        ;
    }
    Fixed { v: r }
}

/// Everything a trial move did, as a relation between the particle
/// system before (`s0`) and after (`s1`), the draws and the returned
/// energy change: the proposed position either leaves the coordinate
/// range (the move fails, the system is untouched), or the move is
/// decided by the Metropolis rule on the exact energy change and the
/// system holds the new position exactly when it was accepted.
pub open spec fn sp_trial_post<P: PairPotential>(
    s0: Seq<Vector3D>,
    s1: Seq<Vector3D>,
    params: SimParams,
    pot: P,
    idx: int,
    d0: u64,
    d1: u64,
    d2: u64,
    u: u64,
    r: Result<Fixed, SimError>,
) -> bool {
    let np = sp_new_pos(s0[idx], d0, d1, d2, params.max_disp.v as int);
    let sn = s0.update(idx, np);
    let delta = sp_single(pot, sn, idx, params.l.v as int, params.rc2.v as int) - sp_single(
        pot,
        s0,
        idx,
        params.l.v as int,
        params.rc2.v as int,
    );
    if !np.bounded(CMAX as int) {
        r == Result::<Fixed, SimError>::Err(SimError::CoordinateOverflow) && s1 == s0
    } else if sp_accept(params.beta.v as int, delta, u) {
        s1 == sn && (r matches Ok(de) && de.v == delta)
    } else {
        s1 == s0 && (r matches Ok(de) && de.v == 0)
    }
}

/// One trial move of particle `idx`, driven by the given draws:
/// snapshot, evaluate, displace, evaluate, Metropolis-decide, and apply
/// or roll back. Returns the accepted energy change, zero on rejection.
pub fn trial_move<P: PairPotential>(
    particles: &mut Vec<Vector3D>,
    params: &SimParams,
    pot: &P,
    idx: usize,
    d0: u64,
    d1: u64,
    d2: u64,
    u: u64,
) -> (r: Result<Fixed, SimError>)
    requires
        pot.wf(),
        params.wf(),
        sp_all_bounded(old(particles)@),
        old(particles)@.len() <= NMAX,
        idx < old(particles)@.len(),
    ensures
        final(particles)@.len() == old(particles)@.len(),
        sp_all_bounded(final(particles)@),
        sp_trial_post(
            old(particles)@,
            final(particles)@,
            *params,
            *pot,
            idx as int,
            d0,
            d1,
            d2,
            u,
            r,
        ),
        r matches Ok(de) ==> de.bounded(DELTA_LIM as int),
        r is Err ==> r == Result::<Fixed, SimError>::Err(SimError::CoordinateOverflow),
{
    let ghost s0 = particles@;
    let old_particle: Vector3D = particles[idx];
    let before: Fixed = single_particle_energy(pot, particles, idx, &params.l, &params.rc2);
    let dx: Fixed = disp_from_draw(d0, &params.max_disp);
    let dy: Fixed = disp_from_draw(d1, &params.max_disp);
    let dz: Fixed = disp_from_draw(d2, &params.max_disp);
    proof {
        assert(s0[idx as int].bounded(CMAX as int));
    }
    let moved: Vector3D = old_particle.add(Vector3D::new(dx, dy, dz));
    proof {
        assert(moved == sp_new_pos(s0[idx as int], d0, d1, d2, params.max_disp.v as int));
    }
    if moved.x.v < -CMAX || moved.x.v > CMAX || moved.y.v < -CMAX || moved.y.v > CMAX || moved.z.v
        < -CMAX || moved.z.v > CMAX {
        return Err(SimError::CoordinateOverflow);
    }
    particles[idx] = moved;
    proof {
        assert(sp_all_bounded(particles@)) by {
            assert forall|i: int| 0 <= i < particles@.len() implies #[trigger] particles@[i]
                .bounded(CMAX as int) by {
                if i != idx {
                    assert(particles@[i] == s0[i]);
                }
            }
        }
    }
    let after: Fixed = single_particle_energy(pot, particles, idx, &params.l, &params.rc2);
    let delta: Fixed = after.sub(before);
    proof {
        lemma_delta_lim(
            before.v as int,
            after.v as int,
            particles@.len() as int,
        );
    }
    let accepted: bool = metropolis_accept(&params.beta, &delta, u);
    if accepted {
        Ok(delta)
    } else {
        particles[idx] = old_particle;
        proof {
            assert(particles@ =~= s0);
        }
        Ok(Fixed { v: 0 })
    }
}

/// Two single-particle energies are within the acceptance rule's range.
proof fn lemma_delta_lim(b: int, a: int, n: int)
    requires
        -(2 * SAT * n) <= b <= 2 * SAT * n,
        -(2 * SAT * n) <= a <= 2 * SAT * n,
        0 <= n <= NMAX,
    ensures
        -DELTA_LIM <= a - b <= DELTA_LIM,
        -(ADD_LIM as int) <= a <= ADD_LIM,
        -(ADD_LIM as int) <= b <= ADD_LIM,
{
    assert(2 * SAT * n <= 2 * SAT * NMAX) by (nonlinear_arith)
        requires
            0 <= n <= NMAX,
            SAT == 0x8000_0000_0000_0000,
    ;
    assert(2 * SAT * (NMAX as int) == 0x10_0000_0000_0000_0000_0000) by (nonlinear_arith)
        requires
            SAT == 0x8000_0000_0000_0000,
            NMAX == 0x10_0000,
    ;
}

/// One trial move with freshly drawn randomness, in the fixed order:
/// index, three displacements, one acceptance word.
pub fn translate<P: PairPotential>(
    particles: &mut Vec<Vector3D>,
    params: &SimParams,
    pot: &P,
    rng: &mut rand::XorShiftRng,
) -> (r: Result<Fixed, SimError>)
    requires
        pot.wf(),
        params.wf(),
        sp_all_bounded(old(particles)@),
        1 <= old(particles)@.len() <= NMAX,
    ensures
        final(particles)@.len() == old(particles)@.len(),
        sp_all_bounded(final(particles)@),
        exists|idx: int, d0: u64, d1: u64, d2: u64, u: u64|
            0 <= idx < old(particles)@.len() && sp_trial_post(
                old(particles)@,
                final(particles)@,
                *params,
                *pot,
                idx,
                d0,
                d1,
                d2,
                u,
                r,
            ),
        r matches Ok(de) ==> de.bounded(DELTA_LIM as int),
        r is Err ==> r == Result::<Fixed, SimError>::Err(SimError::CoordinateOverflow),
{
    let n: usize = particles.len();
    let idx: usize = rng_index(rng, n);
    let d0: u64 = rng_next_u64(rng);
    let d1: u64 = rng_next_u64(rng);
    let d2: u64 = rng_next_u64(rng);
    let u: u64 = rng_next_u64(rng);
    let r = trial_move(particles, params, pot, idx, d0, d1, d2, u);
    r
}

/// Run the simulation: `cycles` sweeps of `moves_per_cycle` trial moves
/// over the initial total energy, recording the running energy after
/// every tenth sweep (the first sweep included). Returns the final
/// running energy and the recorded samples. With zero cycles the running
/// energy is exactly the initial total energy and nothing is recorded.
pub fn run<P: PairPotential>(
    particles: &mut Vec<Vector3D>,
    params: &SimParams,
    pot: &P,
    cycles: u32,
    moves_per_cycle: u32,
    rng: &mut rand::XorShiftRng,
) -> (r: Result<(Fixed, Vec<Fixed>), SimError>)
    requires
        pot.wf(),
        params.wf(),
        sp_all_bounded(old(particles)@),
    ensures
        final(particles)@.len() == old(particles)@.len(),
        sp_all_bounded(final(particles)@),
        r == Result::<(Fixed, Vec<Fixed>), SimError>::Err(SimError::BadSystemSize) <==> !(1
            <= old(particles)@.len() <= NMAX),
        r matches Err(e) ==> (e == SimError::BadSystemSize || e == SimError::CoordinateOverflow
            || e == SimError::EnergyOverflow),
        r matches Ok(p) ==> p.0.bounded(RUN_LIM as int) && p.1@.len() == ((cycles + 9) / 10) as int,
        (cycles == 0 && 1 <= old(particles)@.len() <= NMAX) ==> (r matches Ok(p) && p.0.v
            == sp_total(
            *pot,
            old(particles)@,
            params.l.v as int,
            params.rc2.v as int,
        ) && p.1@.len() == 0 && final(particles)@ == old(particles)@),
{
    if particles.len() == 0 || particles.len() > NMAX {
        return Err(SimError::BadSystemSize);
    }
    let mut ener: Fixed = system_energy(pot, particles, &params.l, &params.rc2);
    let mut reports: Vec<Fixed> = Vec::new();
    let ghost s0 = particles@;
    if cycles == 0 {
        return Ok((ener, reports));
    }
    let mut i: u32 = 0;
    while i < cycles
        invariant
            pot.wf(),
            params.wf(),
            sp_all_bounded(particles@),
            1 <= particles@.len() <= NMAX,
            particles@.len() == s0.len(),
            s0 == old(particles)@,
            ener.bounded(RUN_LIM as int),
            i <= cycles,
            cycles > 0,
            reports@.len() == ((i + 9) / 10) as int,
        decreases cycles - i,
    {
        let mut j: u32 = 0;
        while j < moves_per_cycle
            invariant
                pot.wf(),
                params.wf(),
                sp_all_bounded(particles@),
                1 <= particles@.len() <= NMAX,
                particles@.len() == s0.len(),
                s0 == old(particles)@,
                ener.bounded(RUN_LIM as int),
                j <= moves_per_cycle,
                cycles > 0,
            decreases moves_per_cycle - j,
        {
            let step = translate(particles, params, pot, rng);
            match step {
                Ok(de) => {
                    ener = ener.add(de);
                    if ener.v < -RUN_LIM || ener.v > RUN_LIM {
                        return Err(SimError::EnergyOverflow);
                    }
                },
                Err(e) => {
                    return Err(e);
                },
            }
            j = j + 1;
        }
        if i % 10 == 0 {
            reports.push(ener);
        }
        i = i + 1;
    }
    Ok((ener, reports))
}


/// Run the simulation from a fresh generator built from the four seed
/// words (which must not all be zero), with the same contract as `run`.
pub fn run_seeded<P: PairPotential>(
    particles: &mut Vec<Vector3D>,
    params: &SimParams,
    pot: &P,
    cycles: u32,
    moves_per_cycle: u32,
    s0: u32,
    s1: u32,
    s2: u32,
    s3: u32,
) -> (r: Result<(Fixed, Vec<Fixed>), SimError>)
    requires
        pot.wf(),
        params.wf(),
        sp_all_bounded(old(particles)@),
        s0 != 0 || s1 != 0 || s2 != 0 || s3 != 0,
    ensures
        final(particles)@.len() == old(particles)@.len(),
        sp_all_bounded(final(particles)@),
        r == Result::<(Fixed, Vec<Fixed>), SimError>::Err(SimError::BadSystemSize) <==> !(1
            <= old(particles)@.len() <= NMAX),
        r matches Err(e) ==> (e == SimError::BadSystemSize || e == SimError::CoordinateOverflow
            || e == SimError::EnergyOverflow),
        r matches Ok(p) ==> p.0.bounded(RUN_LIM as int) && p.1@.len() == ((cycles + 9) / 10) as int,
        (cycles == 0 && 1 <= old(particles)@.len() <= NMAX) ==> (r matches Ok(p) && p.0.v
            == sp_total(
            *pot,
            old(particles)@,
            params.l.v as int,
            params.rc2.v as int,
        ) && p.1@.len() == 0 && final(particles)@ == old(particles)@),
{
    let mut rng = rng_from_seed(s0, s1, s2, s3);
    run(particles, params, pot, cycles, moves_per_cycle, &mut rng)
}


/// A trial move is a function of its inputs: from the same system, with
/// the same parameters, potential, index and draws, the relation
/// `sp_trial_post` admits exactly one outcome state and result.
pub proof fn lemma_trial_move_deterministic<P: PairPotential>(
    s0: Seq<Vector3D>,
    s1a: Seq<Vector3D>,
    s1b: Seq<Vector3D>,
    params: SimParams,
    pot: P,
    idx: int,
    d0: u64,
    d1: u64,
    d2: u64,
    u: u64,
    ra: Result<Fixed, SimError>,
    rb: Result<Fixed, SimError>,
)
    requires
        sp_trial_post(s0, s1a, params, pot, idx, d0, d1, d2, u, ra),
        sp_trial_post(s0, s1b, params, pot, idx, d0, d1, d2, u, rb),
    ensures
        s1a == s1b,
        ra == rb,
{
}

} // verus!
