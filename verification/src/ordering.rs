//! The version comparisons in terms of `std::cmp::Ordering`.
use std::cmp::Ordering;
use vstd::prelude::*;

use crate::semver::{
    prerelease_order, prerelease_order_spec, semver_order, semver_order_spec, semver_view, Order,
    SemVer,
};

verus! {

/// The `Ordering` that an [`Order`] names.
pub open spec fn ordering_of(o: Order) -> Ordering {
    match o {
        Order::Less => Ordering::Less,
        Order::Equal => Ordering::Equal,
        Order::Greater => Ordering::Greater,
    }
}

fn to_ordering(o: Order) -> (r: Ordering)
    ensures
        r == ordering_of(o),
{
    match o {
        Order::Less => Ordering::Less,
        Order::Equal => Ordering::Equal,
        Order::Greater => Ordering::Greater,
    }
}

/// Compares two pre-release tags identifier by identifier.
pub fn cmp_prerelease(x: &str, y: &str) -> (r: Ordering)
    ensures
        r == ordering_of(prerelease_order_spec(x@, y@)),
{
    to_ordering(prerelease_order(x, y))
}

/// Compares two versions.
pub fn cmp_semver(a: &SemVer, b: &SemVer) -> (r: Ordering)
    ensures
        r == ordering_of(semver_order_spec(semver_view(*a), semver_view(*b))),
{
    to_ordering(semver_order(a, b))
}

} // verus!
