//! Joining the sizes of several arguments into the size of one call.
//!
//! A host call with more than one argument is charged by one formula. The
//! way its argument sizes are joined says how the work grows with them: as
//! their sum, their product, the lesser or the greater of them.

use crate::saturating::{saturating_product, saturating_sum, Gas};
use crate::size_of::GasSizeOf;
use vstd::prelude::*;

verus! {

/// A way to join two sizes into one.
pub trait GasCombinator {
    /// The joined size, as a number.
    spec fn combined(lhs: u64, rhs: u64) -> u64;

    /// Joins two sizes.
    fn combine(lhs: Gas, rhs: Gas) -> (joined: Gas)
        ensures
            joined@ == Self::combined(lhs@, rhs@),
    ;
}

/// The work grows with the sum of the argument sizes.
pub struct Linear;

/// The work grows with the product of the argument sizes.
pub struct Product;

/// The work is bounded by the lesser of the argument sizes.
pub struct Min;

/// The work is bounded by the greater of the argument sizes.
pub struct Max;

/// There is one argument, and the work grows with its size.
pub struct Size;

impl GasCombinator for Linear {
    open spec fn combined(lhs: u64, rhs: u64) -> u64 {
        saturating_sum(lhs as int, rhs as int) as u64
    }

    fn combine(lhs: Gas, rhs: Gas) -> (joined: Gas) {
        lhs + rhs
    }
}

impl GasCombinator for Product {
    open spec fn combined(lhs: u64, rhs: u64) -> u64 {
        saturating_product(lhs as int, rhs as int) as u64
    }

    fn combine(lhs: Gas, rhs: Gas) -> (joined: Gas) {
        proof {
            assert(lhs@ * rhs@ >= 0) by (nonlinear_arith)
                requires
                    lhs@ >= 0,
                    rhs@ >= 0,
            ;
        }
        lhs * rhs.value()
    }
}

impl GasCombinator for Min {
    open spec fn combined(lhs: u64, rhs: u64) -> u64 {
        if lhs <= rhs {
            lhs
        } else {
            rhs
        }
    }

    fn combine(lhs: Gas, rhs: Gas) -> (joined: Gas) {
        if lhs.value() <= rhs.value() {
            lhs
        } else {
            rhs
        }
    }
}

impl GasCombinator for Max {
    open spec fn combined(lhs: u64, rhs: u64) -> u64 {
        if lhs >= rhs {
            lhs
        } else {
            rhs
        }
    }

    fn combine(lhs: Gas, rhs: Gas) -> (joined: Gas) {
        if lhs.value() >= rhs.value() {
            lhs
        } else {
            rhs
        }
    }
}

/// The arguments of one call together with the way their sizes are joined.
/// Its size is the joined size of the arguments, taken from left to right.
pub struct Combine<Tuple, Combinator>(pub Tuple, pub Combinator);

impl<T: GasSizeOf> GasSizeOf for Combine<T, Size> {
    open spec fn gas_size(&self) -> u64 {
        self.0.gas_size()
    }

    open spec fn const_gas_size() -> Option<u64> {
        T::const_gas_size()
    }

    proof fn lemma_const_gas_size(&self) {
        self.0.lemma_const_gas_size();
    }

    fn gas_size_of(&self) -> (size: Gas) {
        self.0.gas_size_of()
    }

    fn const_gas_size_of() -> (size: Option<Gas>) {
        T::const_gas_size_of()
    }
}

impl<T0: GasSizeOf, T1: GasSizeOf, C: GasCombinator> GasSizeOf for Combine<(T0, T1), C> {
    open spec fn gas_size(&self) -> u64 {
        C::combined(self.0.0.gas_size(), self.0.1.gas_size())
    }

    open spec fn const_gas_size() -> Option<u64> {
        match (T0::const_gas_size(), T1::const_gas_size()) {
            (Some(c0), Some(c1)) => Some(C::combined(c0, c1)),
            _ => None,
        }
    }

    proof fn lemma_const_gas_size(&self) {
        self.0.0.lemma_const_gas_size();
        self.0.1.lemma_const_gas_size();
    }

    fn gas_size_of(&self) -> (size: Gas) {
        C::combine(self.0.0.gas_size_of(), self.0.1.gas_size_of())
    }

    fn const_gas_size_of() -> (size: Option<Gas>) {
        match (T0::const_gas_size_of(), T1::const_gas_size_of()) {
            (Some(c0), Some(c1)) => Some(C::combine(c0, c1)),
            _ => None,
        }
    }
}

impl<T0: GasSizeOf, T1: GasSizeOf, T2: GasSizeOf, C: GasCombinator> GasSizeOf for Combine<
    (T0, T1, T2),
    C,
> {
    open spec fn gas_size(&self) -> u64 {
        C::combined(C::combined(self.0.0.gas_size(), self.0.1.gas_size()), self.0.2.gas_size())
    }

    open spec fn const_gas_size() -> Option<u64> {
        match (T0::const_gas_size(), T1::const_gas_size(), T2::const_gas_size()) {
            (Some(c0), Some(c1), Some(c2)) => Some(C::combined(C::combined(c0, c1), c2)),
            _ => None,
        }
    }

    proof fn lemma_const_gas_size(&self) {
        self.0.0.lemma_const_gas_size();
        self.0.1.lemma_const_gas_size();
        self.0.2.lemma_const_gas_size();
    }

    fn gas_size_of(&self) -> (size: Gas) {
        let first = C::combine(self.0.0.gas_size_of(), self.0.1.gas_size_of());
        C::combine(first, self.0.2.gas_size_of())
    }

    fn const_gas_size_of() -> (size: Option<Gas>) {
        match (T0::const_gas_size_of(), T1::const_gas_size_of(), T2::const_gas_size_of()) {
            (Some(c0), Some(c1), Some(c2)) => Some(C::combine(C::combine(c0, c1), c2)),
            _ => None,
        }
    }
}

} // verus!
