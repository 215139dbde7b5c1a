//! The gas unit and its saturating arithmetic.
//!
//! Every operation is total: where the exact result would not fit in 64
//! bits, the largest 64-bit value is returned. Nothing here wraps or panics,
//! so two machines can never disagree on a sum.

use std::cmp::Ordering;
use vstd::prelude::*;

verus! {

/// A non-negative quantity clamped to the largest 64-bit value.
pub open spec fn clamp(n: int) -> int {
    vstd::math::min(n, u64::MAX as int)
}

/// The sum of two quantities, clamped to the largest 64-bit value.
pub open spec fn saturating_sum(a: int, b: int) -> int {
    clamp(a + b)
}

/// The product of two quantities, clamped to the largest 64-bit value.
pub open spec fn saturating_product(a: int, b: int) -> int {
    clamp(a * b)
}

/// An amount of gas: a non-negative 64-bit quantity whose arithmetic
/// saturates instead of wrapping. Its view is the number it holds.
#[derive(Copy, Clone, PartialEq, Eq, Structural, Hash, Debug, Ord)]
pub struct Gas(pub u64);

impl View for Gas {
    type V = u64;

    open spec fn view(&self) -> u64 {
        self.0
    }
}

impl Gas {
    /// No gas at all: the start value of every total.
    pub fn zero() -> (z: Gas)
        ensures
            z@ == 0,
    {
        Gas(0)
    }

    /// The largest amount there is; every sum and product stops here.
    pub fn max() -> (m: Gas)
        ensures
            m@ == u64::MAX,
    {
        Gas(u64::MAX)
    }

    /// The amount as a plain integer.
    pub fn value(&self) -> (v: u64)
        ensures
            v == self@,
    {
        self.0
    }

    /// `self + rhs`, clamped.
    pub fn saturating_add(self, rhs: Gas) -> (sum: Gas)
        ensures
            sum@ == saturating_sum(self@ as int, rhs@ as int),
    {
        Gas(self.0.saturating_add(rhs.0))
    }

    /// `self * factor`, clamped.
    pub fn saturating_mul(self, factor: u64) -> (product: Gas)
        ensures
            product@ == saturating_product(self@ as int, factor as int),
    {
        match self.0.checked_mul(factor) {
            Some(p) => Gas(p),
            None => Gas(u64::MAX),
        }
    }

    /// The amount that stands for a length or a count. A machine word wider
    /// than 64 bits would be clamped.
    pub fn saturating_from_usize(n: usize) -> (g: Gas)
        ensures
            g@ == clamp(n as int),
    {
        Gas(n as u64)
    }

    /// The amount that stands for a 128-bit quantity, clamped.
    pub fn saturating_from_u128(n: u128) -> (g: Gas)
        ensures
            g@ == clamp(n as int),
    {
        if n > u64::MAX as u128 {
            Gas(u64::MAX)
        } else {
            Gas(n as u64)
        }
    }
}

impl PartialOrd for Gas {
    fn partial_cmp(&self, other: &Gas) -> (order: Option<Ordering>) {
        if self.0 < other.0 {
            Some(Ordering::Less)
        } else if self.0 > other.0 {
            Some(Ordering::Greater)
        } else {
            Some(Ordering::Equal)
        }
    }
}

impl vstd::std_specs::cmp::PartialOrdSpecImpl for Gas {
    open spec fn obeys_partial_cmp_spec() -> bool {
        true
    }

    open spec fn partial_cmp_spec(&self, other: &Gas) -> Option<Ordering> {
        if self@ < other@ {
            Some(Ordering::Less)
        } else if self@ > other@ {
            Some(Ordering::Greater)
        } else {
            Some(Ordering::Equal)
        }
    }
}

impl From<u64> for Gas {
    fn from(x: u64) -> (g: Gas)
        ensures
            g@ == x,
    {
        Gas(x)
    }
}

impl vstd::std_specs::convert::FromSpecImpl<u64> for Gas {
    open spec fn obeys_from_spec() -> bool {
        true
    }

    open spec fn from_spec(x: u64) -> Gas {
        Gas(x)
    }
}

impl Default for Gas {
    fn default() -> (g: Gas)
        ensures
            g@ == 0,
    {
        Gas(0)
    }
}

impl core::ops::Add for Gas {
    type Output = Gas;

    fn add(self, rhs: Gas) -> (sum: Gas)
        ensures
            sum@ == saturating_sum(self@ as int, rhs@ as int),
    {
        Gas(self.0.saturating_add(rhs.0))
    }
}

impl vstd::std_specs::ops::AddSpecImpl for Gas {
    open spec fn obeys_add_spec() -> bool {
        true
    }

    open spec fn add_req(self, rhs: Gas) -> bool {
        true
    }

    open spec fn add_spec(self, rhs: Gas) -> Gas {
        Gas(saturating_sum(self.0 as int, rhs.0 as int) as u64)
    }
}

impl core::ops::Mul<u64> for Gas {
    type Output = Gas;

    fn mul(self, factor: u64) -> (product: Gas)
        ensures
            product@ == saturating_product(self@ as int, factor as int),
    {
        self.saturating_mul(factor)
    }
}

impl vstd::std_specs::ops::MulSpecImpl<u64> for Gas {
    open spec fn obeys_mul_spec() -> bool {
        true
    }

    open spec fn mul_req(self, factor: u64) -> bool {
        true
    }

    open spec fn mul_spec(self, factor: u64) -> Gas {
        Gas(saturating_product(self.0 as int, factor as int) as u64)
    }
}

impl core::ops::AddAssign for Gas {
    fn add_assign(&mut self, rhs: Gas)
        ensures
            final(self)@ == saturating_sum(old(self)@ as int, rhs@ as int),
    {
        self.0 = self.0.saturating_add(rhs.0);
    }
}

/// Clamped addition never wraps: the sum is the exact sum where that fits
/// in 64 bits and the largest value otherwise, so it is never below either
/// operand. It does not depend on the order of the operands, and zero is
/// its identity.
pub proof fn lemma_saturating_sum(a: u64, b: u64)
    ensures
        saturating_sum(a as int, b as int) == if a + b <= u64::MAX {
            a + b
        } else {
            u64::MAX as int
        },
        a <= saturating_sum(a as int, b as int) <= u64::MAX,
        b <= saturating_sum(a as int, b as int),
        saturating_sum(a as int, b as int) == saturating_sum(b as int, a as int),
        saturating_sum(a as int, 0) == a,
{
}

/// Clamped multiplication never wraps: the product is the exact product
/// where that fits in 64 bits and the largest value otherwise. One is its
/// identity, and zero annihilates.
pub proof fn lemma_saturating_product(a: u64, b: u64)
    ensures
        saturating_product(a as int, b as int) == if a * b <= u64::MAX {
            a * b
        } else {
            u64::MAX as int
        },
        0 <= saturating_product(a as int, b as int) <= u64::MAX,
        b >= 1 ==> a <= saturating_product(a as int, b as int),
        saturating_product(a as int, b as int) == saturating_product(b as int, a as int),
        saturating_product(a as int, 1) == a,
        saturating_product(a as int, 0) == 0,
{
    assert(a * b >= 0) by (nonlinear_arith)
        requires
            a >= 0,
            b >= 0,
    ;
    assert(b >= 1 ==> a * b >= a) by (nonlinear_arith)
        requires
            a >= 0,
    ;
    assert(a * b == b * a) by (nonlinear_arith);
}

/// Clamping an intermediate sum does not change a clamped total: adding
/// `b` to the clamped `a` gives what clamping `a + b` gives.
pub proof fn lemma_clamp_absorbs(a: int, b: int)
    requires
        0 <= a,
        0 <= b,
    ensures
        clamp(clamp(a) + b) == clamp(a + b),
{
}

/// A number put into an amount comes back unchanged, and so does a wider
/// number that is below the point of saturation.
pub proof fn lemma_round_trip(x: u64, wide: u128)
    ensures
        <Gas as vstd::std_specs::convert::FromSpec<u64>>::from_spec(x)@ == x,
        wide <= u64::MAX ==> clamp(wide as int) == wide,
{
}

} // verus!
