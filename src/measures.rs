//! Measures: units of privacy loss at the output of a measurement.

use vstd::prelude::*;
use crate::framework::Metric;

verus! {

/// Pure differential privacy: the loss is the parameter epsilon.
#[derive(Clone, Copy, Debug)]
pub struct MaxDivergence;

/// Zero-concentrated differential privacy: the loss is the parameter rho.
#[derive(Clone, Copy, Debug)]
pub struct ZeroConcentratedDivergence;

impl Metric for MaxDivergence {
    open spec fn same_spec(&self, other: &Self) -> bool {
        true
    }

    fn same(&self, other: &Self) -> (r: bool) {
        true
    }

    fn duplicate(&self) -> (r: Self) {
        MaxDivergence
    }
}

impl Metric for ZeroConcentratedDivergence {
    open spec fn same_spec(&self, other: &Self) -> bool {
        true
    }

    fn same(&self, other: &Self) -> (r: bool) {
        true
    }

    fn duplicate(&self) -> (r: Self) {
        ZeroConcentratedDivergence
    }
}

} // verus!
