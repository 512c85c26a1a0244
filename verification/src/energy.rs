//! The energy evaluator: total system energy over all unordered pairs and
//! the single-particle energy of one particle against all others, both
//! cutoff-filtered with the inclusive rule `d^2 <= rc^2`.

use vstd::prelude::*;

verus! {

use crate::fixed::{Fixed, SAT};
use crate::vec3::Vector3D;
use crate::metric::{sp_min_image_sq, squared_distance, CMAX};
use crate::potential::{PairPotential, LennardJones};
use crate::fixed::SCALE;

/// Largest particle count the evaluator accepts: 2^20.
pub const NMAX: usize = 0x10_0000;

/// Raw bound on any energy sum the evaluator returns: 2^106.
pub const ESUM_LIM: i128 = 0x400_0000_0000_0000_0000_0000_0000;

/// The contribution of the pair `{i, j}`: the pair energy at the squared
/// minimum-image distance, or zero beyond the cutoff (inclusive rule:
/// a pair exactly at the cutoff contributes).
pub open spec fn sp_pair_term<P: PairPotential>(
    pot: P,
    s: Seq<Vector3D>,
    i: int,
    j: int,
    l: int,
    rc2: int,
) -> int {
    let d2 = sp_min_image_sq(s[i], s[j], l);
    if d2 <= rc2 {
        pot.energy_spec(d2)
    } else {
        0
    }
}

/// Sum of the terms `{i, jj}` for `jj` in `[i+1, j)`.
pub open spec fn sp_row<P: PairPotential>(
    pot: P,
    s: Seq<Vector3D>,
    i: int,
    j: int,
    l: int,
    rc2: int,
) -> int
    decreases j - i,
{
    if j <= i + 1 {
        0
    } else {
        sp_row(pot, s, i, j - 1, l, rc2) + sp_pair_term(pot, s, i, j - 1, l, rc2)
    }
}

/// Sum of the rows `i` in `[0, k)`, each row running to `jend`.
pub open spec fn sp_rows<P: PairPotential>(
    pot: P,
    s: Seq<Vector3D>,
    k: int,
    jend: int,
    l: int,
    rc2: int,
) -> int
    decreases k,
{
    if k <= 0 {
        0
    } else {
        sp_rows(pot, s, k - 1, jend, l, rc2) + sp_row(pot, s, k - 1, jend, l, rc2)
    }
}

/// Total system energy: the sum over all unordered pairs `{i, j}`,
/// `i < j`, within the cutoff.
pub open spec fn sp_total<P: PairPotential>(
    pot: P,
    s: Seq<Vector3D>,
    l: int,
    rc2: int,
) -> int {
    sp_rows(pot, s, s.len() as int, s.len() as int, l, rc2)
}

/// Sum of the terms `{idx, j}` for `j` in `[0, jend)`, `j != idx`.
pub open spec fn sp_single_upto<P: PairPotential>(
    pot: P,
    s: Seq<Vector3D>,
    idx: int,
    jend: int,
    l: int,
    rc2: int,
) -> int
    decreases jend,
{
    if jend <= 0 {
        0
    } else if jend - 1 == idx {
        sp_single_upto(pot, s, idx, jend - 1, l, rc2)
    } else {
        sp_single_upto(pot, s, idx, jend - 1, l, rc2) + sp_pair_term(
            pot,
            s,
            idx,
            jend - 1,
            l,
            rc2,
        )
    }
}

/// Single-particle energy: particle `idx` against every other particle.
pub open spec fn sp_single<P: PairPotential>(
    pot: P,
    s: Seq<Vector3D>,
    idx: int,
    l: int,
    rc2: int,
) -> int {
    sp_single_upto(pot, s, idx, s.len() as int, l, rc2)
}

/// Every coordinate of the system is within the metric's range.
pub open spec fn sp_all_bounded(s: Seq<Vector3D>) -> bool {
    forall|i: int| 0 <= i < s.len() ==> #[trigger] s[i].bounded(CMAX as int)
}

/// Compute the total system energy using a generic pair potential.
pub fn system_energy<P: PairPotential>(
    potential: &P,
    particles: &Vec<Vector3D>,
    l: &Fixed,
    rc2: &Fixed,
) -> (r: Fixed)
    requires
        potential.wf(),
        sp_all_bounded(particles@),
        particles@.len() <= NMAX,
        0 < l.v <= CMAX,
    ensures
        r.v == sp_total(*potential, particles@, l.v as int, rc2.v as int),
        r.bounded(ESUM_LIM as int),
{
    let ghost s = particles@;
    let ghost lv = l.v as int;
    let ghost cv = rc2.v as int;
    let n: usize = particles.len();
    if n < 2 {
        proof {
            if n == 1 {
                assert(sp_rows(*potential, s, 0, 1, lv, cv) == 0);
                assert(sp_row(*potential, s, 0, 1, lv, cv) == 0);
                assert(sp_rows(*potential, s, 1, 1, lv, cv) == 0);
            }
        }
        return Fixed { v: 0 };
    }
    let mut acc: Fixed = Fixed { v: 0 };
    let mut i: usize = 0;
    while i < n - 1
        invariant
            2 <= n <= NMAX,
            n == s.len(),
            0 <= i <= n - 1,
            potential.wf(),
            sp_all_bounded(s),
            s == particles@,
            0 < l.v <= CMAX,
            lv == l.v as int,
            cv == rc2.v as int,
            acc.v == sp_rows(*potential, s, i as int, n as int, lv, cv),
            acc.bounded(2 * SAT * ((i as int) * (n as int))),
        decreases n - i,
    {
        let pi: Vector3D = particles[i];
        let mut j: usize = i + 1;
        while j < n
            invariant
                2 <= n <= NMAX,
                n == s.len(),
                0 <= i < n,
                i < j <= n,
                potential.wf(),
                sp_all_bounded(s),
                s == particles@,
                pi == s[i as int],
                0 < l.v <= CMAX,
                lv == l.v as int,
                cv == rc2.v as int,
                acc.v == sp_rows(*potential, s, i as int, n as int, lv, cv) + sp_row(
                    *potential,
                    s,
                    i as int,
                    j as int,
                    lv,
                    cv,
                ),
                acc.bounded(2 * SAT * ((i as int) * (n as int) + (j - i - 1))),
            decreases n - j,
        {
            let pj: Vector3D = particles[j];
            let d2: Fixed = squared_distance(&pi, &pj, l);
            if d2.v <= rc2.v {
                let e: Fixed = potential.energy(&d2);
                proof {
                    lemma_step_bound(acc.v as int, i as int, j as int, n as int);
                }
                acc = acc.add(e);
            }
            proof {
                assert(2 * SAT * ((i as int) * (n as int) + (j - i)) >= 2 * SAT * ((i as int) * (
                n as int) + (j - i - 1))) by (nonlinear_arith)
                    requires
                        0 <= i as int,
                        i < j,
                ;
            }
            j = j + 1;
        }
        proof {
            assert(2 * SAT * ((i as int) * (n as int) + (n as int - i - 1)) <= 2 * SAT * (((
            i as int) + 1) * (n as int))) by (nonlinear_arith)
                requires
                    0 <= i as int,
                    (i as int) < n as int,
            ;
        }
        i = i + 1;
    }
    proof {
        assert(sp_rows(*potential, s, n as int, n as int, lv, cv) == sp_rows(
            *potential,
            s,
            n - 1,
            n as int,
            lv,
            cv,
        ) + sp_row(*potential, s, n - 1, n as int, lv, cv));
        assert(sp_row(*potential, s, n - 1, n as int, lv, cv) == 0);
        assert(2 * SAT * ((n as int - 1) * (n as int)) <= ESUM_LIM) by (nonlinear_arith)
            requires
                2 <= n as int <= NMAX as int,
        ;
    }
    acc
}

/// The accumulator bound admits one more term.
proof fn lemma_step_bound(a: int, i: int, j: int, n: int)
    requires
        -(2 * SAT * (i * n + (j - i - 1))) <= a <= 2 * SAT * (i * n + (j - i - 1)),
        0 <= i < n,
        i < j < n,
        n <= NMAX,
    ensures
        -(2 * SAT * (i * n + (j - i))) <= a + (-(2 * SAT)) && a + 2 * SAT <= 2 * SAT * (i * n + (j
            - i)),
        2 * SAT * (i * n + (j - i)) == 2 * SAT * (i * n + (j - i - 1)) + 2 * SAT,
        -(0x2000000000000000000000000000000) <= a - 2 * SAT,
        a + 2 * SAT <= 0x2000000000000000000000000000000,
{
    assert(0 <= i * n <= NMAX * NMAX) by (nonlinear_arith)
        requires
            0 <= i < n <= NMAX,
    ;
    assert(2 * SAT * (i * n + (j - i)) == 2 * SAT * (i * n + (j - i - 1)) + 2 * SAT)
        by (nonlinear_arith);
    assert(2 * SAT * (i * n + (j - i - 1)) + 2 * SAT <= 0x2000000000000000000000000000000)
        by (nonlinear_arith)
        requires
            0 <= i < n <= NMAX,
            i < j < n,
            NMAX == 0x10_0000,
            SAT == 0x8000_0000_0000_0000,
    ;
}

/// Compute the single-particle energy of `idx` against all others using a
/// generic pair potential.
pub fn single_particle_energy<P: PairPotential>(
    potential: &P,
    particles: &Vec<Vector3D>,
    idx: usize,
    l: &Fixed,
    rc2: &Fixed,
) -> (r: Fixed)
    requires
        potential.wf(),
        sp_all_bounded(particles@),
        particles@.len() <= NMAX,
        idx < particles@.len(),
        0 < l.v <= CMAX,
    ensures
        r.v == sp_single(*potential, particles@, idx as int, l.v as int, rc2.v as int),
        r.bounded(2 * SAT * particles@.len() as int),
{
    let ghost s = particles@;
    let ghost lv = l.v as int;
    let ghost cv = rc2.v as int;
    let n: usize = particles.len();
    let pi: Vector3D = particles[idx];
    let mut acc: Fixed = Fixed { v: 0 };
    let mut j: usize = 0;
    while j < n
        invariant
            1 <= n <= NMAX,
            n == s.len(),
            idx < n,
            0 <= j <= n,
            potential.wf(),
            sp_all_bounded(s),
            s == particles@,
            pi == s[idx as int],
            0 < l.v <= CMAX,
            lv == l.v as int,
            cv == rc2.v as int,
            acc.v == sp_single_upto(*potential, s, idx as int, j as int, lv, cv),
            acc.bounded(2 * SAT * (j as int)),
        decreases n - j,
    {
        if j != idx {
            let pj: Vector3D = particles[j];
            let d2: Fixed = squared_distance(&pi, &pj, l);
            if d2.v <= rc2.v {
                let e: Fixed = potential.energy(&d2);
                proof {
                    assert(2 * SAT * ((j as int) + 1) == 2 * SAT * (j as int) + 2 * SAT)
                        by (nonlinear_arith);
                    assert(2 * SAT * (j as int) <= 2 * SAT * NMAX) by (nonlinear_arith)
                        requires
                            0 <= j as int <= NMAX,
                    ;
                }
                acc = acc.add(e);
            }
        }
        proof {
            assert(2 * SAT * ((j as int) + 1) >= 2 * SAT * (j as int)) by (nonlinear_arith);
        }
        j = j + 1;
    }
    acc
}

/// The unit Lennard-Jones potential (`sigma = epsilon = 1`).
pub open spec fn sp_unit_lj() -> LennardJones {
    LennardJones { sigma: Fixed { v: SCALE as i128 }, epsilon: Fixed { v: SCALE as i128 } }
}

/// Compute the total system energy with the unit Lennard-Jones potential.
pub fn energy(particles: &Vec<Vector3D>, l: &Fixed, rc2: &Fixed) -> (r: Fixed)
    requires
        sp_all_bounded(particles@),
        particles@.len() <= NMAX,
        0 < l.v <= CMAX,
    ensures
        r.v == sp_total(sp_unit_lj(), particles@, l.v as int, rc2.v as int),
        r.bounded(ESUM_LIM as int),
{
    let lj: LennardJones = LennardJones {
        sigma: Fixed { v: SCALE },
        epsilon: Fixed { v: SCALE },
    };
    system_energy(&lj, particles, l, rc2)
}

/// Compute the single-particle energy with the unit Lennard-Jones
/// potential.
pub fn particle_energy(particles: &Vec<Vector3D>, idx: usize, l: &Fixed, rc2: &Fixed) -> (r: Fixed)
    requires
        sp_all_bounded(particles@),
        particles@.len() <= NMAX,
        idx < particles@.len(),
        0 < l.v <= CMAX,
    ensures
        r.v == sp_single(sp_unit_lj(), particles@, idx as int, l.v as int, rc2.v as int),
        r.bounded(2 * SAT * particles@.len() as int),
{
    let lj: LennardJones = LennardJones {
        sigma: Fixed { v: SCALE },
        epsilon: Fixed { v: SCALE },
    };
    single_particle_energy(&lj, particles, idx, l, rc2)
}


/// Sum of the pair terms `{i, nn}` for `i` in `[0, k)`.
pub open spec fn sp_col<P: PairPotential>(
    pot: P,
    s: Seq<Vector3D>,
    k: int,
    nn: int,
    l: int,
    rc2: int,
) -> int
    decreases k,
{
    if k <= 0 {
        0
    } else {
        sp_col(pot, s, k - 1, nn, l, rc2) + sp_pair_term(pot, s, k - 1, nn, l, rc2)
    }
}

/// Sum of `sp_single_upto(i, nn)` for `i` in `[0, k)`.
pub open spec fn sp_singles<P: PairPotential>(
    pot: P,
    s: Seq<Vector3D>,
    k: int,
    nn: int,
    l: int,
    rc2: int,
) -> int
    decreases k,
{
    if k <= 0 {
        0
    } else {
        sp_singles(pot, s, k - 1, nn, l, rc2) + sp_single_upto(pot, s, k - 1, nn, l, rc2)
    }
}

/// Sum of the single-particle energies of the first `k` particles.
pub open spec fn sp_single_sum<P: PairPotential>(
    pot: P,
    s: Seq<Vector3D>,
    k: int,
    l: int,
    rc2: int,
) -> int
    decreases k,
{
    if k <= 0 {
        0
    } else {
        sp_single_sum(pot, s, k - 1, l, rc2) + sp_single(pot, s, k - 1, l, rc2)
    }
}

/// A pair's term does not depend on the order of its two indices.
proof fn lemma_term_symm<P: PairPotential>(pot: P, s: Seq<Vector3D>, i: int, j: int, l: int, rc2: int)
    requires
        l > 0,
    ensures
        sp_pair_term(pot, s, i, j, l, rc2) == sp_pair_term(pot, s, j, i, l, rc2),
{
    crate::metric::lemma_min_image_symm(s[i], s[j], l);
}

/// Extending every single-particle sum from range `nn` to `nn + 1` adds
/// one column of pair terms.
proof fn lemma_singles_step<P: PairPotential>(
    pot: P,
    s: Seq<Vector3D>,
    k: int,
    nn: int,
    l: int,
    rc2: int,
)
    requires
        l > 0,
        0 <= k <= nn,
    ensures
        sp_singles(pot, s, k, nn + 1, l, rc2) == sp_singles(pot, s, k, nn, l, rc2) + sp_col(
            pot,
            s,
            k,
            nn,
            l,
            rc2,
        ),
    decreases k,
{
    if k > 0 {
        lemma_singles_step(pot, s, k - 1, nn, l, rc2);
        assert(sp_single_upto(pot, s, k - 1, nn + 1, l, rc2) == sp_single_upto(
            pot,
            s,
            k - 1,
            nn,
            l,
            rc2,
        ) + sp_pair_term(pot, s, k - 1, nn, l, rc2));
    }
}

/// Extending every row from range `nn` to `nn + 1` adds the same column.
proof fn lemma_rows_step<P: PairPotential>(
    pot: P,
    s: Seq<Vector3D>,
    k: int,
    nn: int,
    l: int,
    rc2: int,
)
    requires
        l > 0,
        0 <= k <= nn,
    ensures
        sp_rows(pot, s, k, nn + 1, l, rc2) == sp_rows(pot, s, k, nn, l, rc2) + sp_col(
            pot,
            s,
            k,
            nn,
            l,
            rc2,
        ),
    decreases k,
{
    if k > 0 {
        lemma_rows_step(pot, s, k - 1, nn, l, rc2);
        assert(sp_row(pot, s, k - 1, nn + 1, l, rc2) == sp_row(pot, s, k - 1, nn, l, rc2)
            + sp_pair_term(pot, s, k - 1, nn, l, rc2));
    }
}

/// The single-particle sum of the last particle equals the column of
/// pair terms below it.
proof fn lemma_single_as_col<P: PairPotential>(
    pot: P,
    s: Seq<Vector3D>,
    k: int,
    nn: int,
    l: int,
    rc2: int,
)
    requires
        l > 0,
        0 <= k <= nn,
    ensures
        sp_single_upto(pot, s, nn, k, l, rc2) == sp_col(pot, s, k, nn, l, rc2),
    decreases k,
{
    if k > 0 {
        lemma_single_as_col(pot, s, k - 1, nn, l, rc2);
        lemma_term_symm(pot, s, nn, k - 1, l, rc2);
    }
}

/// The double-counting identity over the first `nn` particles.
proof fn lemma_double_count_upto<P: PairPotential>(
    pot: P,
    s: Seq<Vector3D>,
    nn: int,
    l: int,
    rc2: int,
)
    requires
        l > 0,
        0 <= nn,
    ensures
        sp_singles(pot, s, nn, nn, l, rc2) == 2 * sp_rows(pot, s, nn, nn, l, rc2),
    decreases nn,
{
    if nn > 0 {
        lemma_double_count_upto(pot, s, nn - 1, l, rc2);
        lemma_singles_step(pot, s, nn - 1, nn - 1, l, rc2);
        lemma_rows_step(pot, s, nn - 1, nn - 1, l, rc2);
        lemma_single_as_col(pot, s, nn - 1, nn - 1, l, rc2);
        assert(sp_singles(pot, s, nn, nn, l, rc2) == sp_singles(pot, s, nn - 1, nn, l, rc2)
            + sp_single_upto(pot, s, nn - 1, nn, l, rc2));
        assert(sp_single_upto(pot, s, nn - 1, nn, l, rc2) == sp_single_upto(
            pot,
            s,
            nn - 1,
            nn - 1,
            l,
            rc2,
        ));
        assert(sp_rows(pot, s, nn, nn, l, rc2) == sp_rows(pot, s, nn - 1, nn, l, rc2) + sp_row(
            pot,
            s,
            nn - 1,
            nn,
            l,
            rc2,
        ));
        assert(sp_row(pot, s, nn - 1, nn, l, rc2) == 0);
    }
}

/// The two single sums agree when the range is the whole system.
proof fn lemma_single_sum_as_singles<P: PairPotential>(
    pot: P,
    s: Seq<Vector3D>,
    k: int,
    l: int,
    rc2: int,
)
    requires
        0 <= k,
    ensures
        sp_single_sum(pot, s, k, l, rc2) == sp_singles(pot, s, k, s.len() as int, l, rc2),
    decreases k,
{
    if k > 0 {
        lemma_single_sum_as_singles(pot, s, k - 1, l, rc2);
    }
}

/// Law: the total energy double-counts the single-particle energies.
/// The sum of `single_particle_energy(i)` over all particles is exactly
/// twice the total system energy, because every pair contributes its
/// term once to each of its two members.
pub proof fn lemma_total_energy_double_counting<P: PairPotential>(
    pot: P,
    s: Seq<Vector3D>,
    l: int,
    rc2: int,
)
    requires
        l > 0,
    ensures
        sp_single_sum(pot, s, s.len() as int, l, rc2) == 2 * sp_total(pot, s, l, rc2),
{
    lemma_single_sum_as_singles(pot, s, s.len() as int, l, rc2);
    lemma_double_count_upto(pot, s, s.len() as int, l, rc2);
}


} // verus!
