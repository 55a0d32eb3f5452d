//! Bounded sums of integer data sets.

use vstd::prelude::*;
use std::marker::PhantomData;
use crate::arith::{Number, clamp};
use crate::domains::{AtomDomain, VectorDomain};
use crate::error::{ErrorVariant, Fallible};
use crate::framework::{Function, Transformation};
use crate::metrics::{AbsoluteDistance, SymmetricDistance};
use crate::relation::Relation;

verus! {

/// The total of the positive elements of `s`.
pub open spec fn positive_total<T: Number>(s: Seq<T>) -> int
    decreases s.len(),
{
    if s.len() == 0 {
        0
    } else {
        positive_total(s.drop_last()) + if s.last().int_value() > 0 {
            s.last().int_value()
        } else {
            0
        }
    }
}

/// The total of the negative elements of `s`.
pub open spec fn negative_total<T: Number>(s: Seq<T>) -> int
    decreases s.len(),
{
    if s.len() == 0 {
        0
    } else {
        negative_total(s.drop_last()) + if s.last().int_value() > 0 {
            0
        } else {
            s.last().int_value()
        }
    }
}

/// The saturating split sum of `s`: positive and negative elements are summed
/// apart, each total sticking at the representable limit, and the two totals
/// are then added, again sticking at the limits.
pub open spec fn split_sum<T: Number>(s: Seq<T>) -> int {
    clamp(
        clamp(positive_total(s), T::min_int(), T::max_int()) + clamp(
            negative_total(s),
            T::min_int(),
            T::max_int(),
        ),
        T::min_int(),
        T::max_int(),
    )
}

proof fn lemma_totals_signs<T: Number>(s: Seq<T>)
    ensures
        positive_total(s) >= 0,
        negative_total(s) <= 0,
    decreases s.len(),
{
    if s.len() > 0 {
        lemma_totals_signs(s.drop_last());
    }
}

/// The saturating split sum of a vector of integers.
pub struct BoundedSum<T> {
    marker: PhantomData<T>,
}

impl<T> BoundedSum<T> {
    pub fn new() -> (r: BoundedSum<T>) {
        BoundedSum { marker: PhantomData }
    }
}

impl<T: Number> Function for BoundedSum<T> {
    type Input = Vec<T>;
    type Output = T;

    open spec fn apply_spec(&self, x: &Vec<T>) -> Option<T> {
        Some(T::from_int(split_sum(x@)))
    }

    fn apply(&self, x: &Vec<T>) -> (r: Fallible<T>) {
        let mut positive = T::zero();
        let mut negative = T::zero();
        let mut i: usize = 0;
        proof {
            assert(x@.take(0) =~= Seq::<T>::empty());
            T::lemma_range(positive);
        }
        while i < x.len()
            invariant
                0 <= i <= x@.len(),
                positive.int_value() == clamp(positive_total(x@.take(i as int)), T::min_int(), T::max_int()),
                negative.int_value() == clamp(negative_total(x@.take(i as int)), T::min_int(), T::max_int()),
            decreases x@.len() - i,
        {
            let v = x[i];
            proof {
                let prev = x@.take(i as int);
                let next = x@.take(i + 1);
                assert(next.drop_last() =~= prev);
                lemma_totals_signs(prev);
                T::lemma_range(v);
            }
            if v.widen() > 0 {
                positive = positive.sat_add(&v);
            } else {
                negative = negative.sat_add(&v);
            }
            i += 1;
        }
        proof {
            assert(x@.take(x@.len() as int) =~= x@);
        }
        let total = positive.sat_add(&negative);
        proof {
            T::lemma_from_int(total);
        }
        Ok(total)
    }

    fn duplicate(&self) -> (r: Self) {
        BoundedSum { marker: self.marker }
    }
}

/// The integer types for which bounded sums are offered.
pub trait MakeBoundedSum: Number {
}

impl MakeBoundedSum for i32 {
}

impl MakeBoundedSum for i64 {
}

impl MakeBoundedSum for u32 {
}

impl MakeBoundedSum for u64 {
}

/// The integer types for which bounded sums over data sets of known size are
/// offered.
pub trait MakeSizedBoundedSum: Number {
}

impl MakeSizedBoundedSum for i32 {
}

impl MakeSizedBoundedSum for i64 {
}

impl MakeSizedBoundedSum for u32 {
}

impl MakeSizedBoundedSum for u64 {
}

/// A bounded sum over data sets of unknown size.
pub type BoundedSumTrans<T> = Transformation<
    VectorDomain<AtomDomain<T>>,
    AtomDomain<T>,
    SymmetricDistance,
    AbsoluteDistance<T>,
    BoundedSum<T>,
>;

/// The larger of `|lower|` and `|upper|`.
pub open spec fn magnitude(lower: int, upper: int) -> int {
    let a = if lower < 0 { -lower } else { lower };
    let b = if upper < 0 { -upper } else { upper };
    if a > b { a } else { b }
}

/// The sum of a data set whose elements lie in `[bounds.0, bounds.1]`.
///
/// Adding or removing one record moves the sum by at most the larger magnitude
/// of the two bounds, so the stability relation maps a symmetric distance `d_in`
/// to `d_in` times that magnitude. Fails when the lower bound exceeds the upper
/// bound.
pub fn make_bounded_sum<T: MakeBoundedSum>(bounds: (T, T)) -> (r: Fallible<BoundedSumTrans<T>>)
    ensures
        r is Ok <==> bounds.0.int_value() <= bounds.1.int_value(),
        r matches Ok(t) ==> {
            &&& t.input_domain_spec().element_domain.bounds_spec() == Some(
                (bounds.0.int_value(), bounds.1.int_value()),
            )
            &&& !t.input_domain_spec().element_domain.nan_spec()
            &&& t.input_domain_spec().size is None
            &&& !t.output_domain_spec().nan_spec()
            &&& t.output_domain_spec().bounds_spec() is None
            &&& t.stability_map_spec() matches Relation::Linear(c) && c == magnitude(
                bounds.0.int_value(),
                bounds.1.int_value(),
            )
        },
        r matches Err(e) ==> e.variant == ErrorVariant::MakeDomain,
{
    let element_domain = AtomDomain::new_closed(bounds)?;
    proof {
        T::lemma_range(bounds.0);
        T::lemma_range(bounds.1);
    }
    let lower = bounds.0.widen();
    let upper = bounds.1.widen();
    let a: i128 = if lower < 0 { -lower } else { lower };
    let b: i128 = if upper < 0 { -upper } else { upper };
    let c: i128 = if a > b { a } else { b };
    Transformation::new(
        VectorDomain::new(element_domain),
        AtomDomain::new_non_nan(),
        BoundedSum::new(),
        SymmetricDistance,
        AbsoluteDistance::new(),
        Relation::Linear(c as u64),
    )
}

/// A bounded sum over data sets of known size.
pub type SizedBoundedSumTrans<T> = BoundedSumTrans<T>;

/// The sum of a data set of `size` elements, each in `[bounds.0, bounds.1]`.
///
/// With the size fixed, neighbouring data sets differ by changed records, each
/// worth two units of symmetric distance and moving the sum by at most the
/// width of the bounds; the stability relation maps `d_in` to `d_in / 2` times
/// that width. Fails when the lower bound exceeds the upper bound.
pub fn make_sized_bounded_sum<T: MakeSizedBoundedSum>(size: usize, bounds: (T, T)) -> (r: Fallible<
    SizedBoundedSumTrans<T>,
>)
    ensures
        r is Ok <==> bounds.0.int_value() <= bounds.1.int_value(),
        r matches Ok(t) ==> {
            &&& t.input_domain_spec().element_domain.bounds_spec() == Some(
                (bounds.0.int_value(), bounds.1.int_value()),
            )
            &&& !t.input_domain_spec().element_domain.nan_spec()
            &&& t.input_domain_spec().size == Some(size)
            &&& !t.output_domain_spec().nan_spec()
            &&& t.output_domain_spec().bounds_spec() is None
            &&& t.stability_map_spec() matches Relation::HalvedLinear(c) && c == bounds.1.int_value()
                - bounds.0.int_value()
        },
        r matches Err(e) ==> e.variant == ErrorVariant::MakeDomain,
{
    let element_domain = AtomDomain::new_closed(bounds)?;
    proof {
        T::lemma_range(bounds.0);
        T::lemma_range(bounds.1);
    }
    let width: i128 = bounds.1.widen() - bounds.0.widen();
    Transformation::new(
        VectorDomain::new(element_domain).with_size(size),
        AtomDomain::new_non_nan(),
        BoundedSum::new(),
        SymmetricDistance,
        AbsoluteDistance::new(),
        Relation::HalvedLinear(width as u64),
    )
}

} // verus!
