//! The rational period attached to each duration variant: how many seconds
//! one unit of the variant's count represents, as a ratio of two positive
//! 32-bit integers.

use crate::arith::{gcd, lemma_gcd_properties};
use vstd::arithmetic::div_mod::lemma_fundamental_div_mod;
use vstd::prelude::*;

verus! {

/// A ratio of seconds per unit, fixed per duration variant. The invariant
/// keeps both parts positive, so every scaling multiplies and divides by
/// positive numbers.
#[derive(Copy, Clone, Debug, PartialEq, Eq, Structural)]
pub struct Period {
    pub numer: i32,
    pub denom: i32,
}

impl Period {
    /// Both parts of the ratio are positive.
    pub open spec fn wf(self) -> bool {
        self.numer >= 1 && self.denom >= 1
    }

    /// Builds the ratio `numer / denom` without reducing it.
    pub fn new_raw(numer: i32, denom: i32) -> (p: Period)
        requires
            numer >= 1,
            denom >= 1,
        ensures
            p.numer == numer,
            p.denom == denom,
            p.wf(),
    {
        Period { numer, denom }
    }

    /// The numerator of the ratio.
    pub fn numer(&self) -> (n: i32)
        ensures
            n == self.numer,
    {
        self.numer
    }

    /// The denominator of the ratio.
    pub fn denom(&self) -> (d: i32)
        ensures
            d == self.denom,
    {
        self.denom
    }

    /// Divides one ratio by another and reduces the result to lowest terms:
    /// `(a/b) / (c/d) == (a*d) / (b*c)`, then both parts are divided by their
    /// greatest common divisor. The reduction keeps the parts as small as
    /// possible, which keeps the intermediate product of a scaling small.
    pub fn div(self, rhs: Period) -> (r: Period)
        requires
            self.wf(),
            rhs.wf(),
            self.numer * rhs.denom <= i32::MAX,
            self.denom * rhs.numer <= i32::MAX,
        ensures
            r.wf(),
            r.numer == (self.numer * rhs.denom) / gcd(
                (self.numer * rhs.denom) as nat,
                (self.denom * rhs.numer) as nat,
            ) as int,
            r.denom == (self.denom * rhs.numer) / gcd(
                (self.numer * rhs.denom) as nat,
                (self.denom * rhs.numer) as nat,
            ) as int,
    {
        proof {
            assert(1 <= self.numer * rhs.denom && 1 <= self.denom * rhs.numer)
                by (nonlinear_arith)
                requires
                    self.numer >= 1,
                    self.denom >= 1,
                    rhs.numer >= 1,
                    rhs.denom >= 1,
            ;
        }
        let n: i32 = self.numer * rhs.denom;
        let d: i32 = self.denom * rhs.numer;
        proof {
            lemma_gcd_properties(n as nat, d as nat);
        }
        let g: u32 = gcd_u32(n as u32, d as u32);
        proof {
            lemma_fundamental_div_mod(n as int, g as int);
            lemma_fundamental_div_mod(d as int, g as int);
            assert(1 <= n as int / g as int && 1 <= d as int / g as int) by (nonlinear_arith)
                requires
                    n == g * (n as int / g as int),
                    d == g * (d as int / g as int),
                    1 <= g,
                    1 <= n,
                    1 <= d,
            ;
        }
        Period { numer: (n as u32 / g) as i32, denom: (d as u32 / g) as i32 }
    }
}

/// Euclid's algorithm on machine integers; its result is the `gcd` of the
/// arguments.
fn gcd_u32(a: u32, b: u32) -> (g: u32)
    requires
        a >= 1,
        b >= 1,
    ensures
        g as nat == gcd(a as nat, b as nat),
        g >= 1,
{
    let mut x: u32 = a;
    let mut y: u32 = b;
    while y != 0
        invariant
            x >= 1,
            gcd(x as nat, y as nat) == gcd(a as nat, b as nat),
        decreases y,
    {
        let r: u32 = x % y;
        x = y;
        y = r;
    }
    proof {
        lemma_gcd_properties(a as nat, b as nat);
    }
    x
}

} // verus!
