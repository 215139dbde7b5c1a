//! The size of a value, in gas.
//!
//! A size is a structural measure (a byte length, an element count, a sum
//! over parts) and nothing else: it never depends on an address, on what an
//! allocator did, or on time. Sizes saturate like every other amount.

use crate::saturating::{clamp, lemma_clamp_absorbs, Gas};
use vstd::prelude::*;

verus! {

/// A type whose values have a size in gas.
///
/// The model of an implementation is the pair of `gas_size`, the size of
/// one value, and `const_gas_size`, the size that all values of the type
/// share where there is such a size. The two must agree, which
/// `lemma_const_gas_size` has every implementation prove.
pub trait GasSizeOf {
    /// The size of this value.
    spec fn gas_size(&self) -> u64;

    /// The size that every value of the type has, if they all have the same.
    spec fn const_gas_size() -> Option<u64>;

    /// Where the type declares one size for all its values, each value has
    /// exactly that size.
    proof fn lemma_const_gas_size(&self)
        ensures
            Self::const_gas_size() matches Some(c) ==> self.gas_size() == c,
    ;

    /// The size of this value.
    fn gas_size_of(&self) -> (size: Gas)
        ensures
            size@ == self.gas_size(),
            Self::const_gas_size() matches Some(c) ==> size@ == c,
    ;

    /// `Some` when every value of the type has the same size.
    fn const_gas_size_of() -> (size: Option<Gas>)
        ensures
            size is Some <==> Self::const_gas_size() is Some,
            size matches Some(c) ==> Self::const_gas_size() == Some(c@),
    ;
}

/// A type all of whose values have one size, known without a value at hand.
pub trait ConstGasSizeOf {
    /// The size of every value of the type.
    spec fn const_size() -> u64;

    /// The size of every value of the type.
    fn gas_size_of() -> (size: Gas)
        ensures
            size@ == Self::const_size(),
    ;
}

/// A truth value takes one byte.
impl ConstGasSizeOf for bool {
    open spec fn const_size() -> u64 {
        1
    }

    fn gas_size_of() -> (size: Gas) {
        Gas::from(1u64)
    }
}

impl GasSizeOf for bool {
    open spec fn gas_size(&self) -> u64 {
        1
    }

    open spec fn const_gas_size() -> Option<u64> {
        Some(1)
    }

    proof fn lemma_const_gas_size(&self) {
    }

    fn gas_size_of(&self) -> (size: Gas) {
        Gas::from(1u64)
    }

    fn const_gas_size_of() -> (size: Option<Gas>) {
        Some(Gas::from(1u64))
    }
}

/// An unsigned 8-bit integer takes 1 byte, whatever it holds.
impl ConstGasSizeOf for u8 {
    open spec fn const_size() -> u64 {
        1
    }

    fn gas_size_of() -> (size: Gas) {
        Gas::from(1u64)
    }
}

impl GasSizeOf for u8 {
    open spec fn gas_size(&self) -> u64 {
        1
    }

    open spec fn const_gas_size() -> Option<u64> {
        Some(1)
    }

    proof fn lemma_const_gas_size(&self) {
    }

    fn gas_size_of(&self) -> (size: Gas) {
        Gas::from(1u64)
    }

    fn const_gas_size_of() -> (size: Option<Gas>) {
        Some(Gas::from(1u64))
    }
}

/// An unsigned 16-bit integer takes 2 bytes, whatever it holds.
impl ConstGasSizeOf for u16 {
    open spec fn const_size() -> u64 {
        2
    }

    fn gas_size_of() -> (size: Gas) {
        Gas::from(2u64)
    }
}

impl GasSizeOf for u16 {
    open spec fn gas_size(&self) -> u64 {
        2
    }

    open spec fn const_gas_size() -> Option<u64> {
        Some(2)
    }

    proof fn lemma_const_gas_size(&self) {
    }

    fn gas_size_of(&self) -> (size: Gas) {
        Gas::from(2u64)
    }

    fn const_gas_size_of() -> (size: Option<Gas>) {
        Some(Gas::from(2u64))
    }
}

/// An unsigned 32-bit integer takes 4 bytes, whatever it holds.
impl ConstGasSizeOf for u32 {
    open spec fn const_size() -> u64 {
        4
    }

    fn gas_size_of() -> (size: Gas) {
        Gas::from(4u64)
    }
}

impl GasSizeOf for u32 {
    open spec fn gas_size(&self) -> u64 {
        4
    }

    open spec fn const_gas_size() -> Option<u64> {
        Some(4)
    }

    proof fn lemma_const_gas_size(&self) {
    }

    fn gas_size_of(&self) -> (size: Gas) {
        Gas::from(4u64)
    }

    fn const_gas_size_of() -> (size: Option<Gas>) {
        Some(Gas::from(4u64))
    }
}

/// An unsigned 64-bit integer takes 8 bytes, whatever it holds.
impl ConstGasSizeOf for u64 {
    open spec fn const_size() -> u64 {
        8
    }

    fn gas_size_of() -> (size: Gas) {
        Gas::from(8u64)
    }
}

impl GasSizeOf for u64 {
    open spec fn gas_size(&self) -> u64 {
        8
    }

    open spec fn const_gas_size() -> Option<u64> {
        Some(8)
    }

    proof fn lemma_const_gas_size(&self) {
    }

    fn gas_size_of(&self) -> (size: Gas) {
        Gas::from(8u64)
    }

    fn const_gas_size_of() -> (size: Option<Gas>) {
        Some(Gas::from(8u64))
    }
}

/// An unsigned 128-bit integer takes 16 bytes, whatever it holds.
impl ConstGasSizeOf for u128 {
    open spec fn const_size() -> u64 {
        16
    }

    fn gas_size_of() -> (size: Gas) {
        Gas::from(16u64)
    }
}

impl GasSizeOf for u128 {
    open spec fn gas_size(&self) -> u64 {
        16
    }

    open spec fn const_gas_size() -> Option<u64> {
        Some(16)
    }

    proof fn lemma_const_gas_size(&self) {
    }

    fn gas_size_of(&self) -> (size: Gas) {
        Gas::from(16u64)
    }

    fn const_gas_size_of() -> (size: Option<Gas>) {
        Some(Gas::from(16u64))
    }
}

/// A signed 8-bit integer takes 1 byte, whatever it holds.
impl ConstGasSizeOf for i8 {
    open spec fn const_size() -> u64 {
        1
    }

    fn gas_size_of() -> (size: Gas) {
        Gas::from(1u64)
    }
}

impl GasSizeOf for i8 {
    open spec fn gas_size(&self) -> u64 {
        1
    }

    open spec fn const_gas_size() -> Option<u64> {
        Some(1)
    }

    proof fn lemma_const_gas_size(&self) {
    }

    fn gas_size_of(&self) -> (size: Gas) {
        Gas::from(1u64)
    }

    fn const_gas_size_of() -> (size: Option<Gas>) {
        Some(Gas::from(1u64))
    }
}

/// A signed 16-bit integer takes 2 bytes, whatever it holds.
impl ConstGasSizeOf for i16 {
    open spec fn const_size() -> u64 {
        2
    }

    fn gas_size_of() -> (size: Gas) {
        Gas::from(2u64)
    }
}

impl GasSizeOf for i16 {
    open spec fn gas_size(&self) -> u64 {
        2
    }

    open spec fn const_gas_size() -> Option<u64> {
        Some(2)
    }

    proof fn lemma_const_gas_size(&self) {
    }

    fn gas_size_of(&self) -> (size: Gas) {
        Gas::from(2u64)
    }

    fn const_gas_size_of() -> (size: Option<Gas>) {
        Some(Gas::from(2u64))
    }
}

/// A signed 32-bit integer takes 4 bytes, whatever it holds.
impl ConstGasSizeOf for i32 {
    open spec fn const_size() -> u64 {
        4
    }

    fn gas_size_of() -> (size: Gas) {
        Gas::from(4u64)
    }
}

impl GasSizeOf for i32 {
    open spec fn gas_size(&self) -> u64 {
        4
    }

    open spec fn const_gas_size() -> Option<u64> {
        Some(4)
    }

    proof fn lemma_const_gas_size(&self) {
    }

    fn gas_size_of(&self) -> (size: Gas) {
        Gas::from(4u64)
    }

    fn const_gas_size_of() -> (size: Option<Gas>) {
        Some(Gas::from(4u64))
    }
}

/// A signed 64-bit integer takes 8 bytes, whatever it holds.
impl ConstGasSizeOf for i64 {
    open spec fn const_size() -> u64 {
        8
    }

    fn gas_size_of() -> (size: Gas) {
        Gas::from(8u64)
    }
}

impl GasSizeOf for i64 {
    open spec fn gas_size(&self) -> u64 {
        8
    }

    open spec fn const_gas_size() -> Option<u64> {
        Some(8)
    }

    proof fn lemma_const_gas_size(&self) {
    }

    fn gas_size_of(&self) -> (size: Gas) {
        Gas::from(8u64)
    }

    fn const_gas_size_of() -> (size: Option<Gas>) {
        Some(Gas::from(8u64))
    }
}

/// A signed 128-bit integer takes 16 bytes, whatever it holds.
impl ConstGasSizeOf for i128 {
    open spec fn const_size() -> u64 {
        16
    }

    fn gas_size_of() -> (size: Gas) {
        Gas::from(16u64)
    }
}

impl GasSizeOf for i128 {
    open spec fn gas_size(&self) -> u64 {
        16
    }

    open spec fn const_gas_size() -> Option<u64> {
        Some(16)
    }

    proof fn lemma_const_gas_size(&self) {
    }

    fn gas_size_of(&self) -> (size: Gas) {
        Gas::from(16u64)
    }

    fn const_gas_size_of() -> (size: Option<Gas>) {
        Some(Gas::from(16u64))
    }
}

/// A string slice takes the length of its UTF-8 encoding.
impl GasSizeOf for str {
    open spec fn gas_size(&self) -> u64 {
        clamp(vstd::utf8::encode_utf8(self@).len() as int) as u64
    }

    open spec fn const_gas_size() -> Option<u64> {
        None
    }

    proof fn lemma_const_gas_size(&self) {
    }

    fn gas_size_of(&self) -> (size: Gas) {
        Gas::saturating_from_usize(self.as_bytes().len())
    }

    fn const_gas_size_of() -> (size: Option<Gas>) {
        None
    }
}

/// A reference takes what the value behind it takes.
impl<T: GasSizeOf + ?Sized> GasSizeOf for &T {
    open spec fn gas_size(&self) -> u64 {
        (**self).gas_size()
    }

    open spec fn const_gas_size() -> Option<u64> {
        T::const_gas_size()
    }

    proof fn lemma_const_gas_size(&self) {
        (**self).lemma_const_gas_size();
    }

    fn gas_size_of(&self) -> (size: Gas) {
        (**self).gas_size_of()
    }

    fn const_gas_size_of() -> (size: Option<Gas>) {
        T::const_gas_size_of()
    }
}

/// The exact sum of the sizes of the items of a sequence.
pub open spec fn total_size<T: GasSizeOf>(items: Seq<T>) -> nat
    decreases items.len(),
{
    if items.len() == 0 {
        0
    } else {
        total_size(items.drop_last()) + items.last().gas_size() as nat
    }
}

/// Where all values of the item type have the size `c`, a sequence of `n`
/// items has the total size `c * n`.
pub proof fn lemma_total_size_const<T: GasSizeOf>(items: Seq<T>, c: u64)
    requires
        T::const_gas_size() == Some(c),
    ensures
        total_size(items) == c * items.len(),
    decreases items.len(),
{
    if items.len() > 0 {
        lemma_total_size_const(items.drop_last(), c);
        items.last().lemma_const_gas_size();
        assert(c * (items.len() - 1) + c == c * items.len()) by (nonlinear_arith);
    }
}

/// The size of a run of items: the sum of their sizes, clamped. Where the
/// item type has one size for all its values, one multiplication gives it.
pub fn slice_gas_size<T: GasSizeOf>(items: &[T]) -> (size: Gas)
    ensures
        size@ == clamp(total_size(items@) as int),
{
    match T::const_gas_size_of() {
        Some(c) => {
            proof {
                lemma_total_size_const(items@, c@);
            }
            c.saturating_mul(Gas::saturating_from_usize(items.len()).value())
        },
        None => {
            let mut size = Gas::zero();
            let mut i: usize = 0;
            while i < items.len()
                invariant
                    i <= items.len(),
                    size@ == clamp(total_size(items@.take(i as int)) as int),
                decreases items.len() - i,
            {
                proof {
                    let before = items@.take(i as int);
                    let after = items@.take(i + 1);
                    assert(after.drop_last() == before);
                    assert(after.last() == items@[i as int]);
                    lemma_clamp_absorbs(total_size(before) as int, items@[i as int].gas_size() as int);
                }
                size = size + items[i].gas_size_of();
                i += 1;
            }
            proof {
                assert(items@.take(items@.len() as int) == items@);
            }
            size
        },
    }
}

/// A slice takes what its items take together.
impl<T: GasSizeOf> GasSizeOf for [T] {
    open spec fn gas_size(&self) -> u64 {
        clamp(total_size(self@) as int) as u64
    }

    open spec fn const_gas_size() -> Option<u64> {
        None
    }

    proof fn lemma_const_gas_size(&self) {
    }

    fn gas_size_of(&self) -> (size: Gas) {
        slice_gas_size(self)
    }

    fn const_gas_size_of() -> (size: Option<Gas>) {
        None
    }
}

/// A vector takes what its items take together; a byte buffer, its length.
impl<T: GasSizeOf> GasSizeOf for Vec<T> {
    open spec fn gas_size(&self) -> u64 {
        clamp(total_size(self@) as int) as u64
    }

    open spec fn const_gas_size() -> Option<u64> {
        None
    }

    proof fn lemma_const_gas_size(&self) {
    }

    fn gas_size_of(&self) -> (size: Gas) {
        slice_gas_size(self.as_slice())
    }

    fn const_gas_size_of() -> (size: Option<Gas>) {
        None
    }
}

/// An owned string takes the length of its UTF-8 encoding.
impl GasSizeOf for String {
    open spec fn gas_size(&self) -> u64 {
        clamp(vstd::utf8::encode_utf8(self@).len() as int) as u64
    }

    open spec fn const_gas_size() -> Option<u64> {
        None
    }

    proof fn lemma_const_gas_size(&self) {
    }

    fn gas_size_of(&self) -> (size: Gas) {
        Gas::saturating_from_usize(self.as_str().as_bytes().len())
    }

    fn const_gas_size_of() -> (size: Option<Gas>) {
        None
    }
}

/// An optional value takes one unit for the tag, and what it holds.
impl<T: GasSizeOf> GasSizeOf for Option<T> {
    open spec fn gas_size(&self) -> u64 {
        match self {
            Some(value) => clamp(1 + value.gas_size()) as u64,
            None => 1,
        }
    }

    open spec fn const_gas_size() -> Option<u64> {
        None
    }

    proof fn lemma_const_gas_size(&self) {
    }

    fn gas_size_of(&self) -> (size: Gas) {
        match self {
            Some(value) => Gas::from(1u64) + value.gas_size_of(),
            None => Gas::from(1u64),
        }
    }

    fn const_gas_size_of() -> (size: Option<Gas>) {
        None
    }
}

/// A pair takes what its two parts take together.
impl<A: GasSizeOf, B: GasSizeOf> GasSizeOf for (A, B) {
    open spec fn gas_size(&self) -> u64 {
        clamp(self.0.gas_size() + self.1.gas_size()) as u64
    }

    open spec fn const_gas_size() -> Option<u64> {
        match (A::const_gas_size(), B::const_gas_size()) {
            (Some(a), Some(b)) => Some(clamp(a + b) as u64),
            _ => None,
        }
    }

    proof fn lemma_const_gas_size(&self) {
        self.0.lemma_const_gas_size();
        self.1.lemma_const_gas_size();
    }

    fn gas_size_of(&self) -> (size: Gas) {
        proof {
            self.lemma_const_gas_size();
        }
        self.0.gas_size_of() + self.1.gas_size_of()
    }

    fn const_gas_size_of() -> (size: Option<Gas>) {
        match (A::const_gas_size_of(), B::const_gas_size_of()) {
            (Some(a), Some(b)) => Some(a + b),
            _ => None,
        }
    }
}

/// A structured record: a run of named fields.
pub struct Record<V> {
    pub fields: Vec<(String, V)>,
}

/// A record takes one unit for each field, and what the names and the
/// values of its fields take together.
impl<V: GasSizeOf> GasSizeOf for Record<V> {
    open spec fn gas_size(&self) -> u64 {
        clamp((self.fields@.len() + total_size(self.fields@)) as int) as u64
    }

    open spec fn const_gas_size() -> Option<u64> {
        None
    }

    proof fn lemma_const_gas_size(&self) {
    }

    fn gas_size_of(&self) -> (size: Gas) {
        proof {
            lemma_clamp_absorbs(total_size(self.fields@) as int, self.fields@.len() as int);
        }
        slice_gas_size(self.fields.as_slice()) + Gas::saturating_from_usize(self.fields.len())
    }

    fn const_gas_size_of() -> (size: Option<Gas>) {
        None
    }
}

} // verus!
