//! Integer arithmetic helpers.
//!
//! Ghost `/` and `%` are Euclidean, while Rust's operators on signed
//! integers truncate, so the executable code here goes through unsigned
//! arithmetic and is proved against the ghost operators directly.

use vstd::prelude::*;

verus! {

use vstd::arithmetic::div_mod::{
    lemma_fundamental_div_mod,
    lemma_fundamental_div_mod_converse,
    lemma_mod_division_less_than_divisor,
};
use vstd::arithmetic::mul::lemma_mul_unary_negation;

/// Whether a mathematical integer fits in an `i64`.
pub open spec fn in_i64(v: int) -> bool {
    i64::MIN <= v <= i64::MAX
}

/// Euclidean remainder: the unique representative in `[0, m)`, as the ghost
/// `%` computes it for a positive modulus.
pub fn euclid_rem(x: i64, m: i64) -> (r: i64)
    requires
        m > 0,
    ensures
        r == x as int % m as int,
        0 <= r < m,
{
    proof {
        lemma_mod_division_less_than_divisor(x as int, m as int);
    }
    if x >= 0 {
        let r: u64 = (x as u64) % (m as u64);
        r as i64
    } else {
        let y: u64 = (-(x + 1)) as u64;
        let r1: u64 = y % (m as u64);
        proof {
            let xi = x as int;
            let mi = m as int;
            let yi = y as int;
            lemma_fundamental_div_mod(yi, mi);
            lemma_mod_division_less_than_divisor(yi, mi);
            let q = yi / mi;
            let rr = yi % mi;
            assert((-q - 1) * mi == -(q * mi) - mi) by (nonlinear_arith);
            assert(mi * q == q * mi) by (nonlinear_arith);
            assert(xi == (-q - 1) * mi + (mi - 1 - rr));
            lemma_fundamental_div_mod_converse(xi, mi, -q - 1, mi - 1 - rr);
        }
        m - 1 - (r1 as i64)
    }
}

/// Floor of `v * dt / 1000`: scales a milliunit rate by a duration in
/// milliseconds, rounding toward negative infinity as the ghost `/` does.
pub fn scale_milli(v: i64, dt: u64) -> (r: i64)
    requires
        in_i64(v * dt / 1000),
    ensures
        r == v * dt / 1000,
{
    if v >= 0 {
        let p: u128 = (v as u128) * (dt as u128);
        let q: u128 = p / 1000;
        proof {
            lemma_mod_division_less_than_divisor(v as int * dt as int, 1000);
        }
        q as i64
    } else {
        let mag: u128 = (-(v as i128)) as u128;
        proof {
            assert(mag as int * (dt as int) <= 0x8000_0000_0000_0000 * 0xffff_ffff_ffff_ffff)
                by (nonlinear_arith)
                requires
                    mag as int <= 0x8000_0000_0000_0000,
                    0 <= dt as int <= 0xffff_ffff_ffff_ffff,
                    0 <= mag as int,
            ;
        }
        let p: u128 = mag * (dt as u128);
        let q: u128 = (p + 999) / 1000;
        proof {
            let vi = v as int;
            let dti = dt as int;
            let pi = p as int;
            assert((-vi) * dti == -(vi * dti)) by {
                lemma_mul_unary_negation(vi, dti);
            };
            lemma_fundamental_div_mod(pi, 1000);
            lemma_mod_division_less_than_divisor(pi, 1000);
            let q0 = pi / 1000;
            let r0 = pi % 1000;
            if r0 == 0 {
                lemma_fundamental_div_mod_converse(-pi, 1000, -q0, 0);
                lemma_fundamental_div_mod_converse(pi + 999, 1000, q0, 999);
            } else {
                lemma_fundamental_div_mod_converse(-pi, 1000, -q0 - 1, 1000 - r0);
                lemma_fundamental_div_mod_converse(pi + 999, 1000, q0 + 1, r0 - 1);
            }
        }
        let r: i128 = -(q as i128);
        r as i64
    }
}

} // verus!
