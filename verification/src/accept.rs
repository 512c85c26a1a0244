//! The Metropolis acceptance rule.
//!
//! A move with energy change `delta <= 0` is always accepted (the
//! temperature is positive, so `beta * delta <= 0` is the same test).
//! Otherwise `x = beta * delta` is quantized to `q = floor(x * 2^16)` and
//! the move is accepted iff the 64 uniform random bits `u` satisfy
//! `u < T(q)`, where `T(q)/2^64` approximates `exp(-q / 2^16)` as the
//! 64-bit fixed-point product of the table entries `exp(-2^(j-16))` over
//! the set bits `j` of `q`, truncated after each step. Beyond `x >= 16`
//! (`q >= 2^20`) the acceptance probability is taken as zero.

use vstd::prelude::*;

verus! {

use crate::fixed::Fixed;

/// Raw bound accepted for `beta`: 2^41.
pub const BETA_LIM: i128 = 0x200_0000_0000;

/// Raw bound accepted for an energy change: 2^85.
pub const DELTA_LIM: i128 = 0x20_0000_0000_0000_0000_0000;

/// One scalar unit in 64-bit fixed point: 2^64.
pub const ONE_64: u128 = 0x1_0000_0000_0000_0000;

/// `round(exp(-2^(j-16)) * 2^64)` for `j` in `0..20`.
pub open spec fn sp_exp_table(j: int) -> u128 {
    if j == 0 {
        0xffff00007fffd555
    } else if j == 1 {
        0xfffe0001fffeaaab
    } else if j == 2 {
        0xfffc0007fff55560
    } else if j == 3 {
        0xfff8001fffaaab55
    } else if j == 4 {
        0xfff0007ffd556000
    } else if j == 5 {
        0xffe001ffeaab5551
    } else if j == 6 {
        0xffc007ff555fff77
    } else if j == 7 {
        0xff801ffaab554446
    } else if j == 8 {
        0xff007fd55ffdde39
    } else if j == 9 {
        0xfe01feab551127cc
    } else if j == 10 {
        0xfc07f55ff77d2494
    } else if j == 11 {
        0xf81fab5445aebc8a
    } else if j == 12 {
        0xf07d5fde38151e73
    } else if j == 13 {
        0xe1eb51276c110c3c
    } else if j == 14 {
        0xc75f7cf564105743
    } else if j == 15 {
        0x9b4597e37cb04ff4
    } else if j == 16 {
        0x5e2d58d8b3bcdf1b
    } else if j == 17 {
        0x22a555477f039740
    } else if j == 18 {
        0x04b0556e084f3d1e
    } else {
        0x0015fc21041027ad
    }
}

/// The table entry for bit `j`.
fn exp_table(j: usize) -> (c: u64)
    requires
        j < 20,
    ensures
        c as u128 == sp_exp_table(j as int),
        (c as u128) < ONE_64,
{
    if j == 0 {
        0xffff00007fffd555
    } else if j == 1 {
        0xfffe0001fffeaaab
    } else if j == 2 {
        0xfffc0007fff55560
    } else if j == 3 {
        0xfff8001fffaaab55
    } else if j == 4 {
        0xfff0007ffd556000
    } else if j == 5 {
        0xffe001ffeaab5551
    } else if j == 6 {
        0xffc007ff555fff77
    } else if j == 7 {
        0xff801ffaab554446
    } else if j == 8 {
        0xff007fd55ffdde39
    } else if j == 9 {
        0xfe01feab551127cc
    } else if j == 10 {
        0xfc07f55ff77d2494
    } else if j == 11 {
        0xf81fab5445aebc8a
    } else if j == 12 {
        0xf07d5fde38151e73
    } else if j == 13 {
        0xe1eb51276c110c3c
    } else if j == 14 {
        0xc75f7cf564105743
    } else if j == 15 {
        0x9b4597e37cb04ff4
    } else if j == 16 {
        0x5e2d58d8b3bcdf1b
    } else if j == 17 {
        0x22a555477f039740
    } else if j == 18 {
        0x04b0556e084f3d1e
    } else {
        0x0015fc21041027ad
    }
}

/// The 64-bit fixed-point product over the set bits of `q`, from bit `j`
/// on, with accumulator `t`.
pub open spec fn sp_thr_loop(q: nat, j: nat, t: nat) -> nat
    decreases 20 - j,
{
    if j >= 20 {
        t
    } else {
        sp_thr_loop(
            q / 2,
            j + 1,
            if q % 2 == 1 {
                ((t * sp_exp_table(j as int)) / (ONE_64 as int)) as nat
            } else {
                t
            },
        )
    }
}

/// The acceptance threshold for the quantized exponent `q < 2^20`:
/// `2^64` times an approximation of `exp(-q / 2^16)`.
pub open spec fn sp_threshold(q: nat) -> nat {
    sp_thr_loop(q, 0, ONE_64 as nat)
}

/// The exact Metropolis decision for raw `beta`, raw energy change
/// `delta` and the 64 uniform random bits `u`; meaningful for `beta > 0`.
pub open spec fn sp_accept(beta: int, delta: int, u: u64) -> bool {
    if delta <= 0 {
        true
    } else {
        let q = (beta * delta) / 0x1_0000_0000_0000;
        if q >= 0x10_0000 {
            false
        } else {
            (u as int) < sp_threshold(q as nat)
        }
    }
}

/// Decide a trial move: accept iff the energy does not increase or the
/// uniform draw `u` falls below the exponential acceptance threshold.
pub fn metropolis_accept(beta: &Fixed, delta: &Fixed, u: u64) -> (r: bool)
    requires
        0 < beta.v <= BETA_LIM,
        delta.bounded(DELTA_LIM as int),
    ensures
        r == sp_accept(beta.v as int, delta.v as int, u),
{
    if delta.v <= 0 {
        return true;
    }
    proof {
        assert(0 <= beta.v * delta.v <= BETA_LIM * DELTA_LIM) by (nonlinear_arith)
            requires
                0 < beta.v <= BETA_LIM,
                0 < delta.v <= DELTA_LIM,
        ;
    }
    let p: i128 = beta.v * delta.v;
    let q: u128 = (p as u128) / 0x1_0000_0000_0000;
    proof {
        assert((p as u128) / 0x1_0000_0000_0000u128 == (p as int) / 0x1_0000_0000_0000);
    }
    if q >= 0x10_0000 {
        return false;
    }
    let mut qr: u32 = q as u32;
    let mut t: u128 = ONE_64;
    let mut j: usize = 0;
    while j < 20
        invariant
            j <= 20,
            t <= ONE_64,
            sp_threshold(q as nat) == sp_thr_loop(qr as nat, j as nat, t as nat),
        decreases 20 - j,
    {
        if qr % 2 == 1 {
            let c: u64 = exp_table(j);
            proof {
                assert(t * (c as u128) <= ONE_64 * (c as u128)) by (nonlinear_arith)
                    requires
                        t <= ONE_64,
                ;
                assert((ONE_64 as int) * (c as int) < 0x100000000000000000000000000000000)
                    by (nonlinear_arith)
                    requires
                        ONE_64 == 0x1_0000_0000_0000_0000,
                        (c as int) < 0x1_0000_0000_0000_0000,
                ;
                assert((t as int) * (c as int) / (ONE_64 as int) <= (ONE_64 as int) * (c as int)
                    / (ONE_64 as int)) by (nonlinear_arith)
                    requires
                        0 <= (t as int) <= (ONE_64 as int),
                        0 <= (c as int),
                        (ONE_64 as int) > 0,
                ;
                assert((ONE_64 as int) * (c as int) / (ONE_64 as int) == c as int)
                    by (nonlinear_arith)
                    requires
                        (ONE_64 as int) > 0,
                ;
            }
            t = (t * (c as u128)) / ONE_64;
        }
        qr = qr / 2;
        j = j + 1;
    }
    (u as u128) < t
}

} // verus!
