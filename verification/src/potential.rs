//! Pair potentials: the `PairPotential` capability and its Lennard-Jones
//! and Mie variants.
//!
//! Both variants evaluate an energy from a *squared* distance. To stay in
//! exact fixed-point arithmetic the Mie variant is restricted to even
//! exponents `n > m > 0` whose prefactor exponent `m / (n - m)` is an
//! integer; the classical 12-6 pair satisfies all of this and makes Mie
//! degenerate exactly to Lennard-Jones.

use vstd::prelude::*;

verus! {

use crate::fixed::{Fixed, SCALE, SAT, mul_spec, div_spec};
use crate::errors::SimError;

/// `base^k` under fixed-point multiplication, folded from the left:
/// one scalar unit times `base`, `k` times.
pub open spec fn sp_pow(b: int, k: nat) -> int
    decreases k,
{
    if k == 0 {
        SCALE as int
    } else {
        mul_spec(sp_pow(b, (k - 1) as nat), b)
    }
}

/// `base^k` under fixed-point multiplication.
pub fn pow_sat(base: Fixed, k: u32) -> (r: Fixed)
    requires
        base.bounded(SAT as int),
    ensures
        r.v == sp_pow(base.v as int, k as nat),
        r.bounded(SAT as int),
{
    let mut acc: Fixed = Fixed { v: SCALE };
    let mut i: u32 = 0;
    while i < k
        invariant
            0 <= i <= k,
            acc.v == sp_pow(base.v as int, i as nat),
            acc.bounded(SAT as int),
            base.bounded(SAT as int),
        decreases k - i,
    {
        acc = acc.mul_sat(base);
        i = i + 1;
    }
    acc
}

/// The shared evaluation shape of both potentials, raw:
/// `c*y^nh - c*y^mh` with `c = prefac * eps` and `y = sigma^2 / r2`.
pub open spec fn sp_pair_energy(prefac: int, eps: int, sigma: int, nh: nat, mh: nat, r2: int) -> int {
    let c = mul_spec(prefac, eps);
    let y = div_spec(mul_spec(sigma, sigma), r2);
    mul_spec(c, sp_pow(y, nh)) - mul_spec(c, sp_pow(y, mh))
}

/// The capability "energy of a squared distance". Implementations are
/// pure; adding a variant requires no change to the energy evaluator.
pub trait PairPotential: Sized {
    /// Parameters are validated and in range.
    spec fn wf(&self) -> bool;

    /// The exact raw value `energy` returns.
    spec fn energy_spec(&self, r2: int) -> int;

    /// The pair interaction energy at squared distance `r2`.
    fn energy(&self, r2: &Fixed) -> (e: Fixed)
        requires
            self.wf(),
            0 <= r2.v <= 3 * SAT,
        ensures
            e.v == self.energy_spec(r2.v as int),
            e.bounded(2 * SAT as int),
    ;
}

/// Shared executable body of both variants.
fn eval_pair_energy(c: Fixed, sigma: Fixed, nh: u32, mh: u32, r2: &Fixed) -> (e: Fixed)
    requires
        c.bounded(SAT as int),
        sigma.bounded(SAT as int),
        r2.v > i128::MIN,
    ensures
        ({
            let y = div_spec(mul_spec(sigma.v as int, sigma.v as int), r2.v as int);
            e.v == mul_spec(c.v as int, sp_pow(y, nh as nat)) - mul_spec(
                c.v as int,
                sp_pow(y, mh as nat),
            )
        }),
        e.bounded(2 * SAT as int),
{
    let s2: Fixed = sigma.mul_sat(sigma);
    let y: Fixed = s2.div_sat(*r2);
    let yn: Fixed = pow_sat(y, nh);
    let ym: Fixed = pow_sat(y, mh);
    let tn: Fixed = c.mul_sat(yn);
    let tm: Fixed = c.mul_sat(ym);
    tn.sub(tm)
}

/// The Lennard-Jones potential `4*eps*((sigma^2/r^2)^6 - (sigma^2/r^2)^3)`.
#[derive(Clone, Copy, Debug, PartialEq, Eq, Structural)]
pub struct LennardJones {
    pub sigma: Fixed,
    pub epsilon: Fixed,
}

impl LennardJones {
    /// Create a Lennard-Jones potential; `sigma` and `epsilon` must be
    /// positive and within the saturation range.
    pub fn new(sigma: Fixed, epsilon: Fixed) -> (r: Result<LennardJones, SimError>)
        ensures
            r is Ok <==> (0 < sigma.v <= SAT && 0 < epsilon.v <= SAT),
            r matches Ok(p) ==> p.sigma == sigma && p.epsilon == epsilon && p.wf(),
            r is Err ==> r == Result::<LennardJones, SimError>::Err(SimError::BadPotentialParams),
    {
        if sigma.v <= 0 || sigma.v > SAT || epsilon.v <= 0 || epsilon.v > SAT {
            Err(SimError::BadPotentialParams)
        } else {
            Ok(LennardJones { sigma, epsilon })
        }
    }
}

impl PairPotential for LennardJones {
    open spec fn wf(&self) -> bool {
        0 < self.sigma.v <= SAT && 0 < self.epsilon.v <= SAT
    }

    open spec fn energy_spec(&self, r2: int) -> int {
        sp_pair_energy(4 * SCALE, self.epsilon.v as int, self.sigma.v as int, 6, 3, r2)
    }

    fn energy(&self, r2: &Fixed) -> (e: Fixed) {
        let four: Fixed = Fixed { v: 4 * SCALE };
        let c: Fixed = four.mul_sat(self.epsilon);
        eval_pair_energy(c, self.sigma, 6, 3, r2)
    }
}

/// The exact raw prefactor `n/(n-m) * (n/m)^(m/(n-m))` of a Mie potential,
/// under fixed-point arithmetic; meaningful when `n > m > 0` and
/// `(n - m)` divides `m`.
pub open spec fn sp_prefac(n: int, m: int) -> int {
    mul_spec(
        div_spec(n * SCALE, (n - m) * SCALE),
        sp_pow(div_spec(n * SCALE, m * SCALE), (m / (n - m)) as nat),
    )
}

/// The Mie potential: a generalized Lennard-Jones with independent even
/// exponents `n > m` and the prefactor `n/(n-m) * (n/m)^(m/(n-m))`.
#[derive(Clone, Copy, Debug, PartialEq, Eq, Structural)]
pub struct Mie {
    pub sigma: Fixed,
    pub epsilon: Fixed,
    pub n: u32,
    pub m: u32,
    pub prefac: Fixed,
}

impl Mie {
    /// Create a Mie potential; `sigma` and `epsilon` must be positive and
    /// in range, and the exponents even with `n > m > 0` and `(n - m)`
    /// dividing `m`, so that the energy and the prefactor are exact.
    pub fn new(sigma: Fixed, epsilon: Fixed, n: u32, m: u32) -> (r: Result<Mie, SimError>)
        ensures
            r is Ok <==> (0 < sigma.v <= SAT && 0 < epsilon.v <= SAT && 0 < m < n && n % 2 == 0
                && m % 2 == 0 && (m as int) % (n as int - m as int) == 0),
            r matches Ok(p) ==> p.sigma == sigma && p.epsilon == epsilon && p.n == n && p.m == m
                && p.prefac.v == sp_prefac(n as int, m as int) && p.wf(),
            r matches Err(e) ==> (e == SimError::BadPotentialParams || e
                == SimError::BadMieExponents),
            (r is Err && 0 < sigma.v <= SAT && 0 < epsilon.v <= SAT) ==> r
                == Result::<Mie, SimError>::Err(SimError::BadMieExponents),
    {
        if sigma.v <= 0 || sigma.v > SAT || epsilon.v <= 0 || epsilon.v > SAT {
            Err(SimError::BadPotentialParams)
        } else if m == 0 || n <= m || n % 2 != 0 || m % 2 != 0 || m % (n - m) != 0 {
            Err(SimError::BadMieExponents)
        } else {
            let nf: Fixed = Fixed { v: (n as i128) * SCALE };
            let mf: Fixed = Fixed { v: (m as i128) * SCALE };
            let df: Fixed = Fixed { v: ((n - m) as i128) * SCALE };
            let a: Fixed = nf.div_sat(df);
            let b: Fixed = nf.div_sat(mf);
            let k: u32 = m / (n - m);
            let p: Fixed = a.mul_sat(pow_sat(b, k));
            Ok(Mie { sigma, epsilon, n, m, prefac: p })
        }
    }
}

impl PairPotential for Mie {
    open spec fn wf(&self) -> bool {
        0 < self.sigma.v <= SAT && 0 < self.epsilon.v <= SAT && 0 < self.m < self.n && self.n % 2
            == 0 && self.m % 2 == 0 && (self.m as int) % (self.n as int - self.m as int) == 0 && self.prefac.v
            == sp_prefac(self.n as int, self.m as int) && self.prefac.bounded(SAT as int)
    }

    open spec fn energy_spec(&self, r2: int) -> int {
        sp_pair_energy(
            self.prefac.v as int,
            self.epsilon.v as int,
            self.sigma.v as int,
            (self.n / 2) as nat,
            (self.m / 2) as nat,
            r2,
        )
    }

    fn energy(&self, r2: &Fixed) -> (e: Fixed) {
        let c: Fixed = self.prefac.mul_sat(self.epsilon);
        eval_pair_energy(c, self.sigma, self.n / 2, self.m / 2, r2)
    }
}

/// Law: at exponents 12 and 6 the Mie potential degenerates to
/// Lennard-Jones. The prefactor is then exactly 4, and the two energies
/// coincide for every squared distance.
pub proof fn lemma_mie_degenerates_to_lj(mie: Mie, lj: LennardJones, r2: int)
    requires
        mie.wf(),
        mie.n == 12,
        mie.m == 6,
        mie.sigma == lj.sigma,
        mie.epsilon == lj.epsilon,
    ensures
        mie.energy_spec(r2) == lj.energy_spec(r2),
{
    lemma_prefac_12_6();
}

/// The 12-6 prefactor `12/6 * (12/6)^1` is exactly 4 in fixed point.
pub proof fn lemma_prefac_12_6()
    ensures
        sp_prefac(12, 6) == 4 * SCALE,
{
    assert((12 * (SCALE as int) * SCALE) / (6 * (SCALE as int)) == 2 * SCALE)
        by (nonlinear_arith);
    let two = div_spec(12 * SCALE, 6 * SCALE);
    assert(two == 2 * SCALE);
    assert(sp_pow(two, 1) == mul_spec(sp_pow(two, 0), two));
    assert(sp_pow(two, 0) == SCALE as int);
    assert(((SCALE as int) * (2 * SCALE)) / (SCALE as int) == 2 * SCALE) by (nonlinear_arith);
    assert(mul_spec(SCALE as int, 2 * SCALE) == 2 * SCALE);
    assert(((2 * (SCALE as int)) * (2 * SCALE)) / (SCALE as int) == 4 * SCALE)
        by (nonlinear_arith);
    assert(mul_spec(2 * SCALE, 2 * SCALE) == 4 * SCALE);
    assert((6 as int) / (12 - 6) == 1);
}

} // verus!
