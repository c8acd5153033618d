//! What holds of twelve-bit values whatever they are: how the three kinds
//! of addition and subtraction relate, what the bit counts add up to, and
//! that a byte survives the way into twelve bits and out again.

use crate::bits::{lemma_ones_and_zeros, ones_in, zeros_in};
use crate::u12::U12;
use vstd::prelude::*;
use vstd::std_specs::convert::FromSpec;

verus! {

/// Checked addition gives a value exactly when the sum of the two numbers
/// is at most 4095, and that value stands for the sum.
pub proof fn lemma_checked_add_exact(a: U12, b: U12)
    requires
        a.wf(),
        b.wf(),
    ensures
        a.checked_add(b) is Some <==> a@ + b@ <= 4095,
        a.checked_add(b) matches Some(sum) ==> sum@ == a@ + b@ && sum.wf(),
{
    if a@ + b@ <= 4095 {
        U12::lemma_of_view(a@ + b@);
    }
}

/// Saturating addition gives what checked addition gives where that
/// succeeds, and the largest value where it does not.
pub proof fn lemma_saturating_add_clamps(a: U12, b: U12)
    requires
        a.wf(),
        b.wf(),
    ensures
        a.saturating_add(b) == match a.checked_add(b) {
            Some(sum) => sum,
            None => U12::max_value(),
        },
        a.saturating_add(b).wf(),
{
    U12::lemma_of_view(4095);
    if a@ + b@ <= 4095 {
        U12::lemma_of_view(a@ + b@);
    }
}

/// Wrapping addition gives the sum of the two numbers modulo 4096.
pub proof fn lemma_wrapping_add_modular(a: U12, b: U12)
    requires
        a.wf(),
        b.wf(),
    ensures
        a.wrapping_add(b)@ == (a@ + b@) % 4096,
        a.wrapping_add(b).wf(),
{
    U12::lemma_of_view((a@ + b@) % 4096);
}

/// Checked subtraction gives a value exactly when the first number is at
/// least the second, and that value stands for the difference.
pub proof fn lemma_checked_sub_exact(a: U12, b: U12)
    requires
        a.wf(),
        b.wf(),
    ensures
        a.checked_sub(b) is Some <==> a@ >= b@,
        a.checked_sub(b) matches Some(difference) ==> difference@ == a@ - b@ && difference.wf(),
{
    if a@ >= b@ {
        U12::lemma_of_view(a@ - b@);
    }
}

/// Saturating subtraction gives what checked subtraction gives where that
/// succeeds, and the smallest value where it does not.
pub proof fn lemma_saturating_sub_clamps(a: U12, b: U12)
    requires
        a.wf(),
        b.wf(),
    ensures
        a.saturating_sub(b) == match a.checked_sub(b) {
            Some(difference) => difference,
            None => U12::min_value(),
        },
        a.saturating_sub(b).wf(),
{
    U12::lemma_of_view(0);
    if a@ >= b@ {
        U12::lemma_of_view(a@ - b@);
    }
}

/// Wrapping subtraction gives the difference of the two numbers modulo
/// 4096, which is never negative.
pub proof fn lemma_wrapping_sub_modular(a: U12, b: U12)
    requires
        a.wf(),
        b.wf(),
    ensures
        a.wrapping_sub(b)@ == (a@ - b@) % 4096,
        a.wrapping_sub(b).wf(),
{
    U12::lemma_of_view((a@ - b@) % 4096);
}

/// The set bits and the clear bits of a value are twelve together.
pub proof fn lemma_count_ones_and_zeros(x: U12)
    ensures
        ones_in(x@, 12) + zeros_in(x@, 12) == 12,
{
    lemma_ones_and_zeros(x@, 12);
}

/// The smallest value stands for 0 and the largest for 4095.
pub proof fn lemma_limits()
    ensures
        U12::min_value()@ == 0,
        U12::max_value()@ == 4095,
        U12::min_value().wf(),
        U12::max_value().wf(),
{
    U12::lemma_of_view(0);
    U12::lemma_of_view(4095);
}

/// A byte made into a twelve-bit value and then into any of the wider
/// native integers is the byte again.
pub proof fn lemma_byte_round_trip(v: u8)
    ensures
        u16::from_spec(U12::from_spec(v)) == v,
        u32::from_spec(U12::from_spec(v)) == v,
        u64::from_spec(U12::from_spec(v)) == v,
        usize::from_spec(U12::from_spec(v)) == v,
{
    U12::lemma_of_view(v as int);
}

} // verus!
