//! The bits of an integer, counted within a field of a given width.
//!
//! A field of width `w` is made of the bits 0 to `w - 1` of a number, bit 0
//! being the lowest. The functions here say how many of those bits are set
//! or clear, and how many clear bits stand at either end of the field.

use vstd::prelude::*;
use vstd::std_specs::bits::{
    axiom_u16_leading_zeros, axiom_u16_trailing_zeros, u16_leading_zeros, u16_trailing_zeros,
};

verus! {

/// Whether bit `i` of `n` is set.
pub open spec fn bit(n: int, i: nat) -> bool
    decreases i,
{
    if i == 0 {
        n % 2 == 1
    } else {
        bit(n / 2, (i - 1) as nat)
    }
}

/// The number of set bits among the lowest `width` bits of `n`.
pub open spec fn ones_in(n: int, width: nat) -> nat
    decreases width,
{
    if width == 0 {
        0
    } else if bit(n, (width - 1) as nat) {
        ones_in(n, (width - 1) as nat) + 1
    } else {
        ones_in(n, (width - 1) as nat)
    }
}

/// The number of clear bits among the lowest `width` bits of `n`.
pub open spec fn zeros_in(n: int, width: nat) -> nat
    decreases width,
{
    if width == 0 {
        0
    } else if bit(n, (width - 1) as nat) {
        zeros_in(n, (width - 1) as nat)
    } else {
        zeros_in(n, (width - 1) as nat) + 1
    }
}

/// The number of clear bits from the top of a field of `width` bits down to
/// its highest set bit; `width` where no bit of the field is set.
pub open spec fn leading_zeros_in(n: int, width: nat) -> nat
    decreases width,
{
    if width == 0 || bit(n, (width - 1) as nat) {
        0
    } else {
        leading_zeros_in(n, (width - 1) as nat) + 1
    }
}

/// The number of clear bits from the bottom of a field of `width` bits up to
/// its lowest set bit; `width` where no bit of the field is set.
pub open spec fn trailing_zeros_in(n: int, width: nat) -> nat
    decreases width,
{
    if width == 0 || bit(n, 0) {
        0
    } else {
        trailing_zeros_in(n / 2, (width - 1) as nat) + 1
    }
}

/// Every bit of a field is either set or clear: the two counts add up to
/// the width.
pub proof fn lemma_ones_and_zeros(n: int, width: nat)
    ensures
        ones_in(n, width) + zeros_in(n, width) == width,
    decreases width,
{
    if width > 0 {
        lemma_ones_and_zeros(n, (width - 1) as nat);
    }
}

/// `count` is the number of leading zeros of a field whose top `count` bits
/// are clear and whose next bit, if the field has one, is set.
pub proof fn lemma_leading_zeros_by_bits(n: int, width: nat, count: nat)
    requires
        count <= width,
        forall|j: nat| width - count <= j < width ==> !#[trigger] bit(n, j),
        count < width ==> bit(n, (width - count - 1) as nat),
    ensures
        leading_zeros_in(n, width) == count,
    decreases count,
{
    if count > 0 {
        assert(!bit(n, (width - 1) as nat));
        lemma_leading_zeros_by_bits(n, (width - 1) as nat, (count - 1) as nat);
    }
}

/// `count` is the number of trailing zeros of a field whose lowest `count`
/// bits are clear and whose next bit, if the field has one, is set.
pub proof fn lemma_trailing_zeros_by_bits(n: int, width: nat, count: nat)
    requires
        count <= width,
        forall|j: nat| j < count ==> !#[trigger] bit(n, j),
        count < width ==> bit(n, count),
    ensures
        trailing_zeros_in(n, width) == count,
    decreases count,
{
    if count > 0 {
        assert(!bit(n, 0));
        assert forall|j: nat| j < count - 1 implies !#[trigger] bit(n / 2, j) by {
            assert(!bit(n, j + 1));
        }
        lemma_trailing_zeros_by_bits(n / 2, (width - 1) as nat, (count - 1) as nat);
    }
}

/// Bit `i` of a 16-bit number is what shifting and masking reads.
pub proof fn lemma_bit_of_u16(v: u16, i: u16)
    requires
        i < 16,
    ensures
        bit(v as int, i as nat) <==> (v >> i) & 1 == 1,
    decreases i,
{
    if i == 0 {
        assert((v >> 0u16) & 1 == v % 2) by (bit_vector);
    } else {
        let below: u16 = (i - 1) as u16;
        lemma_bit_of_u16(v / 2, below);
        assert((v / 2) >> below == v >> i) by (bit_vector)
            requires
                0 < i < 16,
                below == i - 1,
        ;
    }
}

/// A number below 4096 has no bit set from bit 12 upwards.
pub proof fn lemma_twelve_bits(v: u16, i: u16)
    requires
        v <= 0xFFF,
        12 <= i < 16,
    ensures
        !bit(v as int, i as nat),
{
    lemma_bit_of_u16(v, i);
    assert((v >> i) & 1 == 0) by (bit_vector)
        requires
            v <= 0xFFF,
            12 <= i < 16,
    ;
}

/// What `u16::count_ones` returns: the number of ones in the binary
/// representation of its argument, that is among its sixteen bits.
pub assume_specification[ u16::count_ones ](i: u16) -> (r: u32)
    ensures
        r == ones_in(i as int, 16),
;

/// What `u16::count_zeros` returns: the number of zeros in the binary
/// representation of its argument, that is among its sixteen bits.
pub assume_specification[ u16::count_zeros ](i: u16) -> (r: u32)
    ensures
        r == zeros_in(i as int, 16),
;

/// In a number below 4096 the four bits above the twelve-bit field are
/// clear: they add nothing to the ones and four to the zeros.
pub proof fn lemma_counts_of_twelve_bits(v: u16)
    requires
        v <= 0xFFF,
    ensures
        ones_in(v as int, 16) == ones_in(v as int, 12),
        zeros_in(v as int, 16) == zeros_in(v as int, 12) + 4,
        ones_in(v as int, 12) <= 12,
        zeros_in(v as int, 12) <= 12,
{
    lemma_twelve_bits(v, 12);
    lemma_twelve_bits(v, 13);
    lemma_twelve_bits(v, 14);
    lemma_twelve_bits(v, 15);
    reveal_with_fuel(ones_in, 5);
    reveal_with_fuel(zeros_in, 5);
    lemma_ones_and_zeros(v as int, 12);
}

/// The leading zeros that the sixteen-bit count finds in a number below 4096
/// are the four bits above the twelve-bit field and the leading zeros of the
/// field.
pub proof fn lemma_u16_leading_zeros(v: u16)
    requires
        v <= 0xFFF,
    ensures
        u16_leading_zeros(v) == leading_zeros_in(v as int, 12) + 4,
{
    axiom_u16_leading_zeros(v);
    let found = u16_leading_zeros(v);
    if found < 4 {
        let top: u16 = (15 - found) as u16;
        lemma_twelve_bits(v, top);
        lemma_bit_of_u16(v, top);
        assert(((v >> top) & 1 != 0) ==> ((v >> top) & 1 == 1)) by (bit_vector);
    }
    let count: nat = (found - 4) as nat;
    assert forall|j: nat| 12 - count <= j < 12 implies !#[trigger] bit(v as int, j) by {
        let at: u16 = j as u16;
        lemma_bit_of_u16(v, at);
        assert((v >> at) & 1 == 0);
    }
    if count < 12 {
        let top: u16 = (15 - found) as u16;
        lemma_bit_of_u16(v, top);
        assert(((v >> top) & 1 != 0) ==> ((v >> top) & 1 == 1)) by (bit_vector);
    }
    lemma_leading_zeros_by_bits(v as int, 12, count);
}

/// The trailing zeros that the sixteen-bit count finds in a number between
/// 1 and 4095 are those of the twelve-bit field.
pub proof fn lemma_u16_trailing_zeros(v: u16)
    requires
        0 < v <= 0xFFF,
    ensures
        u16_trailing_zeros(v) == trailing_zeros_in(v as int, 12),
{
    axiom_u16_trailing_zeros(v);
    let found = u16_trailing_zeros(v);
    let lowest: u16 = found as u16;
    lemma_bit_of_u16(v, lowest);
    if found >= 12 {
        lemma_twelve_bits(v, lowest);
    }
    assert forall|j: nat| j < found implies !#[trigger] bit(v as int, j) by {
        let at: u16 = j as u16;
        lemma_bit_of_u16(v, at);
        assert((v >> at) & 1 == 0);
    }
    lemma_trailing_zeros_by_bits(v as int, 12, found as nat);
}

/// A field of zero has all its bits clear, so all of them are trailing zeros.
pub proof fn lemma_trailing_zeros_of_zero(width: nat)
    ensures
        trailing_zeros_in(0, width) == width,
    decreases width,
{
    if width > 0 {
        lemma_trailing_zeros_of_zero((width - 1) as nat);
    }
}

} // verus!
