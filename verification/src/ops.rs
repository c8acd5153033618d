//! The operators `+` and `-` on twelve-bit values.
//!
//! Both are exact: they are for call sites where the result is known to lie
//! in range, and ask for that. Where it is not known, use the checked,
//! saturating or wrapping methods. The forms on references pass their
//! operands on to the form on values, which alone does the arithmetic.

use crate::u12::U12;
use core::ops::{Add, Sub};
use vstd::pervasive::unreached;
use vstd::prelude::*;
use vstd::std_specs::ops::{AddSpecImpl, SubSpecImpl};

verus! {

impl AddSpecImpl<U12> for U12 {
    open spec fn obeys_add_spec() -> bool {
        true
    }

    open spec fn add_req(self, other: U12) -> bool {
        self@ + other@ <= 4095
    }

    open spec fn add_spec(self, other: U12) -> U12 {
        U12::of(self@ + other@)
    }
}

impl Add<U12> for U12 {
    type Output = U12;

    fn add(self, other: U12) -> (r: U12)
        ensures
            r@ == self@ + other@,
            r.wf(),
    {
        match self.checked_add(other) {
            Some(result) => result,
            None => unreached(),
        }
    }
}

impl<'a> AddSpecImpl<U12> for &'a U12 {
    open spec fn obeys_add_spec() -> bool {
        true
    }

    open spec fn add_req(self, other: U12) -> bool {
        self@ + other@ <= 4095
    }

    open spec fn add_spec(self, other: U12) -> U12 {
        U12::of(self@ + other@)
    }
}

impl<'a> Add<U12> for &'a U12 {
    type Output = U12;

    fn add(self, other: U12) -> (r: U12)
        ensures
            r@ == self@ + other@,
            r.wf(),
    {
        *self + other
    }
}

impl<'a> AddSpecImpl<&'a U12> for U12 {
    open spec fn obeys_add_spec() -> bool {
        true
    }

    open spec fn add_req(self, other: &'a U12) -> bool {
        self@ + other@ <= 4095
    }

    open spec fn add_spec(self, other: &'a U12) -> U12 {
        U12::of(self@ + other@)
    }
}

impl<'a> Add<&'a U12> for U12 {
    type Output = U12;

    fn add(self, other: &'a U12) -> (r: U12)
        ensures
            r@ == self@ + other@,
            r.wf(),
    {
        self + *other
    }
}

impl<'a, 'b> AddSpecImpl<&'a U12> for &'b U12 {
    open spec fn obeys_add_spec() -> bool {
        true
    }

    open spec fn add_req(self, other: &'a U12) -> bool {
        self@ + other@ <= 4095
    }

    open spec fn add_spec(self, other: &'a U12) -> U12 {
        U12::of(self@ + other@)
    }
}

impl<'a, 'b> Add<&'a U12> for &'b U12 {
    type Output = U12;

    fn add(self, other: &'a U12) -> (r: U12)
        ensures
            r@ == self@ + other@,
            r.wf(),
    {
        *self + *other
    }
}

impl SubSpecImpl<U12> for U12 {
    open spec fn obeys_sub_spec() -> bool {
        true
    }

    open spec fn sub_req(self, other: U12) -> bool {
        self@ >= other@
    }

    open spec fn sub_spec(self, other: U12) -> U12 {
        U12::of(self@ - other@)
    }
}

impl Sub<U12> for U12 {
    type Output = U12;

    fn sub(self, other: U12) -> (r: U12)
        ensures
            r@ == self@ - other@,
            r.wf(),
    {
        match self.checked_sub(other) {
            Some(result) => result,
            None => unreached(),
        }
    }
}

impl<'a> SubSpecImpl<U12> for &'a U12 {
    open spec fn obeys_sub_spec() -> bool {
        true
    }

    open spec fn sub_req(self, other: U12) -> bool {
        self@ >= other@
    }

    open spec fn sub_spec(self, other: U12) -> U12 {
        U12::of(self@ - other@)
    }
}

impl<'a> Sub<U12> for &'a U12 {
    type Output = U12;

    fn sub(self, other: U12) -> (r: U12)
        ensures
            r@ == self@ - other@,
            r.wf(),
    {
        *self - other
    }
}

impl<'a> SubSpecImpl<&'a U12> for U12 {
    open spec fn obeys_sub_spec() -> bool {
        true
    }

    open spec fn sub_req(self, other: &'a U12) -> bool {
        self@ >= other@
    }

    open spec fn sub_spec(self, other: &'a U12) -> U12 {
        U12::of(self@ - other@)
    }
}

impl<'a> Sub<&'a U12> for U12 {
    type Output = U12;

    fn sub(self, other: &'a U12) -> (r: U12)
        ensures
            r@ == self@ - other@,
            r.wf(),
    {
        self - *other
    }
}

impl<'a, 'b> SubSpecImpl<&'a U12> for &'b U12 {
    open spec fn obeys_sub_spec() -> bool {
        true
    }

    open spec fn sub_req(self, other: &'a U12) -> bool {
        self@ >= other@
    }

    open spec fn sub_spec(self, other: &'a U12) -> U12 {
        U12::of(self@ - other@)
    }
}

impl<'a, 'b> Sub<&'a U12> for &'b U12 {
    type Output = U12;

    fn sub(self, other: &'a U12) -> (r: U12)
        ensures
            r@ == self@ - other@,
            r.wf(),
    {
        *self - *other
    }
}

} // verus!
