//! Conversions between twelve-bit values and the native unsigned integers.
//!
//! A byte always fits into twelve bits, and twelve bits always fit into
//! sixteen or more: those conversions are `From`. A wider native integer may
//! not fit: that conversion is `FailableInto`, which fails rather than
//! truncate.

use crate::u12::U12;
use vstd::prelude::*;
use vstd::std_specs::convert::FromSpecImpl;

verus! {

/// Trait for implementing failable conversions in a generic way.
pub trait FailableInto<T> where Self: Sized, T: Sized {
    /// What the conversion gives: the receiver as `Some(T)` where `T` can
    /// hold it, else `None`.
    spec fn spec_failable_into(self) -> Option<T>;

    /// Returns the receiver as `Some(T)` if non-truncating, or `None`.
    fn failable_into(self) -> (r: Option<T>)
        ensures
            r == self.spec_failable_into(),
    ;

    /// Returns the receiver as `T`, for a receiver that `T` can hold.
    fn unchecked_into(self) -> (r: T)
        requires
            self.spec_failable_into() is Some,
        ensures
            self.spec_failable_into() == Some(r),
    {
        self.failable_into().unwrap()
    }
}

/// The twelve-bit value of a number, where the number has one.
pub open spec fn fitting(n: int) -> Option<U12> {
    if 0 <= n <= 4095 {
        Some(U12::of(n))
    } else {
        None
    }
}

/// Narrows the widest native integer; the narrower ones go through it.
fn narrow(wide: u64) -> (r: Option<U12>)
    ensures
        r == fitting(wide as int),
        r is Some <==> wide <= 4095,
        r matches Some(value) ==> value@ == wide && value.wf(),
{
    if wide > 0xFFF {
        None
    } else {
        Some(U12::from_raw(wide as u16))
    }
}

impl FailableInto<U12> for u16 {
    open spec fn spec_failable_into(self) -> Option<U12> {
        fitting(self as int)
    }

    fn failable_into(self) -> (r: Option<U12>)
        ensures
            r is Some <==> self <= 4095,
            r matches Some(value) ==> value@ == self && value.wf(),
    {
        narrow(self as u64)
    }
}

impl FailableInto<U12> for u32 {
    open spec fn spec_failable_into(self) -> Option<U12> {
        fitting(self as int)
    }

    fn failable_into(self) -> (r: Option<U12>)
        ensures
            r is Some <==> self <= 4095,
            r matches Some(value) ==> value@ == self && value.wf(),
    {
        narrow(self as u64)
    }
}

impl FailableInto<U12> for u64 {
    open spec fn spec_failable_into(self) -> Option<U12> {
        fitting(self as int)
    }

    fn failable_into(self) -> (r: Option<U12>)
        ensures
            r is Some <==> self <= 4095,
            r matches Some(value) ==> value@ == self && value.wf(),
    {
        narrow(self)
    }
}

impl FailableInto<U12> for usize {
    open spec fn spec_failable_into(self) -> Option<U12> {
        fitting(self as int)
    }

    fn failable_into(self) -> (r: Option<U12>)
        ensures
            r is Some <==> self <= 4095,
            r matches Some(value) ==> value@ == self && value.wf(),
    {
        narrow(self as u64)
    }
}

impl FromSpecImpl<u8> for U12 {
    open spec fn obeys_from_spec() -> bool {
        true
    }

    open spec fn from_spec(small: u8) -> U12 {
        U12::of(small as int)
    }
}

impl From<u8> for U12 {
    /// Every byte is a twelve-bit value.
    fn from(small: u8) -> (r: U12)
        ensures
            r@ == small,
            r.wf(),
    {
        U12::from_raw(small as u16)
    }
}

impl FromSpecImpl<U12> for u16 {
    open spec fn obeys_from_spec() -> bool {
        true
    }

    open spec fn from_spec(small: U12) -> u16 {
        small@ as u16
    }
}

impl From<U12> for u16 {
    /// Sixteen bits hold every twelve-bit value.
    fn from(small: U12) -> (r: u16)
        ensures
            r == small@,
    {
        small.raw()
    }
}

impl FromSpecImpl<U12> for u32 {
    open spec fn obeys_from_spec() -> bool {
        true
    }

    open spec fn from_spec(small: U12) -> u32 {
        small@ as u32
    }
}

impl From<U12> for u32 {
    /// Thirty-two bits hold every twelve-bit value.
    fn from(small: U12) -> (r: u32)
        ensures
            r == small@,
    {
        small.raw() as u32
    }
}

impl FromSpecImpl<U12> for u64 {
    open spec fn obeys_from_spec() -> bool {
        true
    }

    open spec fn from_spec(small: U12) -> u64 {
        small@ as u64
    }
}

impl From<U12> for u64 {
    /// Sixty-four bits hold every twelve-bit value.
    fn from(small: U12) -> (r: u64)
        ensures
            r == small@,
    {
        small.raw() as u64
    }
}

impl FromSpecImpl<U12> for usize {
    open spec fn obeys_from_spec() -> bool {
        true
    }

    open spec fn from_spec(small: U12) -> usize {
        small@ as usize
    }
}

impl From<U12> for usize {
    /// A pointer-sized integer holds every twelve-bit value.
    fn from(small: U12) -> (r: usize)
        ensures
            r == small@,
    {
        small.raw() as usize
    }
}

} // verus!
