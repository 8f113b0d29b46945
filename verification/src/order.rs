//! The three-way comparison that keys the persistent map.
use vstd::prelude::*;

verus! {

/// The outcome of a three-way comparison.
#[derive(Clone, Copy, PartialEq, Eq, Structural, Debug)]
pub enum Order {
    EQ,
    LT,
    GT,
}

/// The comparison outcome of two keys.
pub open spec fn spec_total(left: u64, right: u64) -> Order {
    if left == right {
        Order::EQ
    } else if left < right {
        Order::LT
    } else {
        Order::GT
    }
}

/// The total order on keys of the persistent map.
pub fn total(left: u64, right: u64) -> (r: Order)
    ensures
        r == spec_total(left, right),
{
    if left == right {
        Order::EQ
    } else if left < right {
        Order::LT
    } else {
        Order::GT
    }
}

} // verus!
