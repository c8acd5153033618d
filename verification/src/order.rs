//! The order of twelve-bit values: that of the numbers they stand for.

use crate::u12::U12;
use core::cmp::Ordering;
use vstd::prelude::*;
use vstd::std_specs::cmp::PartialOrdSpec;

verus! {

impl vstd::std_specs::cmp::PartialOrdSpecImpl for U12 {
    open spec fn obeys_partial_cmp_spec() -> bool {
        true
    }

    /// Values compare as their numbers do, and any two can be compared.
    open spec fn partial_cmp_spec(&self, other: &U12) -> Option<Ordering> {
        if self@ < other@ {
            Some(Ordering::Less)
        } else if self@ > other@ {
            Some(Ordering::Greater)
        } else {
            Some(Ordering::Equal)
        }
    }
}

impl PartialOrd for U12 {
    fn partial_cmp(&self, other: &U12) -> (r: Option<Ordering>) {
        let left: u16 = self.raw();
        let right: u16 = other.raw();
        if left < right {
            Some(Ordering::Less)
        } else if left > right {
            Some(Ordering::Greater)
        } else {
            Some(Ordering::Equal)
        }
    }
}

/// Any two values compare: as equal exactly when they are the same value,
/// and otherwise as the numbers they stand for.
pub proof fn lemma_order_by_view(a: U12, b: U12)
    ensures
        a.partial_cmp_spec(&b) is Some,
        a.partial_cmp_spec(&b) == Some(Ordering::Equal) <==> a == b,
        a.partial_cmp_spec(&b) == Some(Ordering::Less) <==> a@ < b@,
        a.partial_cmp_spec(&b) == Some(Ordering::Greater) <==> a@ > b@,
{
    a.lemma_equal_by_view(b);
}

} // verus!
