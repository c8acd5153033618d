//! The twelve-bit value type, its limits, its bit inspection and its
//! overflow-aware arithmetic.

use crate::bits::{
    leading_zeros_in, lemma_counts_of_twelve_bits, lemma_ones_and_zeros,
    lemma_trailing_zeros_of_zero, lemma_u16_leading_zeros, lemma_u16_trailing_zeros, ones_in,
    trailing_zeros_in, zeros_in,
};
use vstd::prelude::*;

pub use crate::convert::FailableInto;

verus! {

/// An unsigned integer in the range 0 to 4095.
///
/// The value is kept in sixteen bits of storage whose upper four bits are
/// always zero. Its view is the number it stands for.
#[derive(Debug, Clone, Copy, PartialEq, Eq, Ord, Structural)]
pub struct U12(u16);

impl View for U12 {
    type V = int;

    closed spec fn view(&self) -> int {
        self.0 as int
    }
}

impl U12 {
    #[verifier::type_invariant]
    spec fn upper_bits_clear(self) -> bool {
        self.0 <= 0xFFF
    }

    /// Whether the number lies in the twelve-bit range. Every value that
    /// executable code holds does; of a ghost value it has to be asked.
    pub open spec fn wf(self) -> bool {
        0 <= self@ <= 4095
    }

    /// The value that stands for `n`, for `n` from 0 to 4095.
    pub closed spec fn of(n: int) -> Self {
        U12(n as u16)
    }

    /// `of` gives a value in range that stands for the number it was given.
    pub proof fn lemma_of_view(n: int)
        requires
            0 <= n <= 4095,
        ensures
            Self::of(n)@ == n,
            Self::of(n).wf(),
    {
    }

    /// Two values are the same exactly when they stand for the same number.
    pub proof fn lemma_equal_by_view(self, other: Self)
        ensures
            self == other <==> self@ == other@,
    {
    }

    /// The value over the given storage.
    pub(crate) fn from_raw(raw: u16) -> (r: Self)
        requires
            raw <= 0xFFF,
        ensures
            r@ == raw,
            r == Self::of(raw as int),
            r.wf(),
    {
        U12(raw)
    }

    /// The storage of the value.
    pub(crate) fn raw(self) -> (r: u16)
        ensures
            r == self@,
            r <= 0xFFF,
            self.wf(),
    {
        proof {
            use_type_invariant(&self);
        }
        self.0
    }

    /// The smallest value: the one that stands for 0.
    pub open spec fn spec_min_value() -> Self {
        Self::of(0)
    }

    /// Returns the smallest value that can be represented by this integer type.
    #[verifier::when_used_as_spec(spec_min_value)]
    pub fn min_value() -> (r: Self)
        ensures
            r == Self::spec_min_value(),
            r@ == 0,
            r.wf(),
    {
        U12(0x000)
    }

    /// The largest value: the one that stands for 4095.
    pub open spec fn spec_max_value() -> Self {
        Self::of(4095)
    }

    /// Returns the largest value that can be represented by this integer type.
    #[verifier::when_used_as_spec(spec_max_value)]
    pub fn max_value() -> (r: Self)
        ensures
            r == Self::spec_max_value(),
            r@ == 4095,
            r.wf(),
    {
        U12(0xFFF)
    }

    /// Returns the number of ones in the binary representation of `self`.
    pub fn count_ones(self) -> (r: u32)
        ensures
            r == ones_in(self@, 12),
    {
        proof {
            use_type_invariant(&self);
            lemma_counts_of_twelve_bits(self.0);
        }
        self.0.count_ones()
    }

    /// Returns the number of zeros in the binary representation of `self`,
    /// taken as twelve bits wide.
    pub fn count_zeros(self) -> (r: u32)
        ensures
            r == zeros_in(self@, 12),
            r == 12 - ones_in(self@, 12),
    {
        proof {
            use_type_invariant(&self);
            lemma_counts_of_twelve_bits(self.0);
            lemma_ones_and_zeros(self@, 12);
        }
        self.0.count_zeros() - 4
    }

    /// Returns the number of leading zeros in the binary representation of
    /// `self`, taken as twelve bits wide.
    pub fn leading_zeros(self) -> (r: u32)
        ensures
            r == leading_zeros_in(self@, 12),
    {
        proof {
            use_type_invariant(&self);
            lemma_u16_leading_zeros(self.0);
        }
        self.0.leading_zeros() - 4
    }

    /// Returns the number of trailing zeros in the binary representation of
    /// `self`, taken as twelve bits wide: zero has twelve of them.
    pub fn trailing_zeros(self) -> (r: u32)
        ensures
            r == trailing_zeros_in(self@, 12),
    {
        if self.0 == 0 {
            proof {
                lemma_trailing_zeros_of_zero(12);
            }
            12
        } else {
            proof {
                use_type_invariant(&self);
                lemma_u16_trailing_zeros(self.0);
            }
            self.0.trailing_zeros()
        }
    }

    /// The exact sum where it is at most 4095, else no value.
    pub open spec fn spec_checked_add(self, other: Self) -> Option<Self> {
        if self@ + other@ <= 4095 {
            Some(Self::of(self@ + other@))
        } else {
            None
        }
    }

    /// Checked integer addition.
    /// Computes `self + other`, returning `None` if overflow occurred.
    #[verifier::when_used_as_spec(spec_checked_add)]
    pub fn checked_add(self, other: Self) -> (r: Option<Self>)
        ensures
            r == self.spec_checked_add(other),
            r is Some <==> self@ + other@ <= 4095,
            r matches Some(sum) ==> sum@ == self@ + other@ && sum.wf(),
    {
        proof {
            use_type_invariant(&self);
            use_type_invariant(&other);
        }
        let sum: u16 = self.0 + other.0;
        if sum <= 0xFFF {
            Some(U12(sum))
        } else {
            None
        }
    }

    /// The exact sum where it is at most 4095, else the largest value.
    pub open spec fn spec_saturating_add(self, other: Self) -> Self {
        if self@ + other@ <= 4095 {
            Self::of(self@ + other@)
        } else {
            Self::of(4095)
        }
    }

    /// Saturating integer addition.
    /// Computes `self + other`, saturating at the numeric bounds instead of overflowing.
    #[verifier::when_used_as_spec(spec_saturating_add)]
    pub fn saturating_add(self, other: Self) -> (r: Self)
        ensures
            r == self.spec_saturating_add(other),
            r@ == if self@ + other@ <= 4095 { self@ + other@ } else { 4095 },
            r.wf(),
    {
        proof {
            use_type_invariant(&self);
            use_type_invariant(&other);
        }
        let sum: u16 = self.0 + other.0;
        if sum <= 0xFFF {
            U12(sum)
        } else {
            Self::max_value()
        }
    }

    /// The sum modulo 4096.
    pub open spec fn spec_wrapping_add(self, other: Self) -> Self {
        Self::of((self@ + other@) % 4096)
    }

    /// Wrapping (modular) addition.
    /// Computes `self + other`, wrapping around at the boundary of the type.
    #[verifier::when_used_as_spec(spec_wrapping_add)]
    pub fn wrapping_add(self, other: Self) -> (r: Self)
        ensures
            r == self.spec_wrapping_add(other),
            r@ == (self@ + other@) % 4096,
            r.wf(),
    {
        proof {
            use_type_invariant(&self);
            use_type_invariant(&other);
        }
        let sum: u16 = self.0 + other.0;
        assert(sum & 0xFFF == sum % 4096) by (bit_vector);
        U12(sum & 0xFFF)
    }

    /// The exact difference where it is not negative, else no value.
    pub open spec fn spec_checked_sub(self, other: Self) -> Option<Self> {
        if self@ >= other@ {
            Some(Self::of(self@ - other@))
        } else {
            None
        }
    }

    /// Checked integer subtraction.
    /// Computes `self - other`, returning `None` if underflow occurred.
    #[verifier::when_used_as_spec(spec_checked_sub)]
    pub fn checked_sub(self, other: Self) -> (r: Option<Self>)
        ensures
            r == self.spec_checked_sub(other),
            r is Some <==> self@ >= other@,
            r matches Some(difference) ==> difference@ == self@ - other@ && difference.wf(),
    {
        proof {
            use_type_invariant(&self);
            use_type_invariant(&other);
        }
        match self.0.checked_sub(other.0) {
            Some(value) => Some(U12(value)),
            None => None,
        }
    }

    /// The exact difference where it is not negative, else the smallest value.
    pub open spec fn spec_saturating_sub(self, other: Self) -> Self {
        if self@ >= other@ {
            Self::of(self@ - other@)
        } else {
            Self::of(0)
        }
    }

    /// Saturating integer subtraction.
    /// Computes `self - other`, saturating at the numeric bounds instead of overflowing.
    #[verifier::when_used_as_spec(spec_saturating_sub)]
    pub fn saturating_sub(self, other: Self) -> (r: Self)
        ensures
            r == self.spec_saturating_sub(other),
            r@ == if self@ >= other@ { self@ - other@ } else { 0 },
            r.wf(),
    {
        proof {
            use_type_invariant(&self);
            use_type_invariant(&other);
        }
        U12(self.0.saturating_sub(other.0))
    }

    /// The difference modulo 4096, which is never negative.
    pub open spec fn spec_wrapping_sub(self, other: Self) -> Self {
        Self::of((self@ - other@) % 4096)
    }

    /// Wrapping (modular) subtraction.
    /// Computes `self - other`, wrapping around at the boundary of the type.
    #[verifier::when_used_as_spec(spec_wrapping_sub)]
    pub fn wrapping_sub(self, other: Self) -> (r: Self)
        ensures
            r == self.spec_wrapping_sub(other),
            r@ == (self@ - other@) % 4096,
            r.wf(),
    {
        proof {
            use_type_invariant(&self);
            use_type_invariant(&other);
        }
        let difference: u16 = self.0.wrapping_sub(other.0);
        assert(difference & 0xFFF == difference % 4096) by (bit_vector);
        U12(difference & 0xFFF)
    }
}

impl Default for U12 {
    /// The default value is the smallest one.
    fn default() -> (r: U12)
        ensures
            r == U12::spec_min_value(),
            r@ == 0,
            r.wf(),
    {
        U12::min_value()
    }
}

} // verus!
