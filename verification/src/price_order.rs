//! The order of oracle prices: by value, after aligning exponents.

use crate::oracle::OraclePrice;
use std::cmp::Ordering;
use vstd::prelude::*;

verus! {

impl PartialOrd for OraclePrice {
    /// Compares the two prices at the lower of their exponents. Prices that
    /// cannot be brought to one exponent without overflow are incomparable.
    fn partial_cmp(&self, other: &OraclePrice) -> (r: Option<Ordering>) {
        match self.align(other) {
            Some((lhs, rhs)) => Some(
                if lhs < rhs {
                    Ordering::Less
                } else if lhs > rhs {
                    Ordering::Greater
                } else {
                    Ordering::Equal
                },
            ),
            None => None,
        }
    }
}

impl vstd::std_specs::cmp::PartialOrdSpecImpl for OraclePrice {
    open spec fn obeys_partial_cmp_spec() -> bool {
        true
    }

    open spec fn partial_cmp_spec(&self, other: &OraclePrice) -> Option<Ordering> {
        match self.aligned(*other) {
            Some(m) => Some(
                if m.0 < m.1 {
                    Ordering::Less
                } else if m.0 > m.1 {
                    Ordering::Greater
                } else {
                    Ordering::Equal
                },
            ),
            None => None,
        }
    }
}

} // verus!
