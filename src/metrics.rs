//! Metrics: typed distances between data sets and aggregates, and the metric
//! spaces they form with domains.

use vstd::prelude::*;
use std::marker::PhantomData;
use crate::arith::Number;
use crate::framework::{Metric, MetricSpace};
use crate::domains::{AtomDomain, Domain, MapDomain, VectorDomain};
use crate::error::{Error, ErrorVariant, Fallible};

verus! {

/// The type of distances between data sets.
pub type IntDistance = u32;

/// The smallest number of additions or removals that make two data sets equal.
///
/// Insensitive to the order of the data.
#[derive(Clone, Copy, Debug)]
pub struct SymmetricDistance;

impl Default for SymmetricDistance {
    fn default() -> (r: SymmetricDistance)
        ensures
            r == SymmetricDistance,
    {
        SymmetricDistance
    }
}

impl PartialEq for SymmetricDistance {
    fn eq(&self, other: &SymmetricDistance) -> (r: bool) {
        true
    }
}

impl vstd::std_specs::cmp::PartialEqSpecImpl for SymmetricDistance {
    open spec fn obeys_eq_spec() -> bool {
        true
    }

    open spec fn eq_spec(&self, other: &SymmetricDistance) -> bool {
        true
    }
}

impl Metric for SymmetricDistance {
    open spec fn same_spec(&self, other: &Self) -> bool {
        true
    }

    fn same(&self, other: &Self) -> (r: bool) {
        true
    }

    fn duplicate(&self) -> (r: Self) {
        SymmetricDistance
    }
}

/// The smallest number of insertions or deletions at given indices that make two
/// data sets equal.
///
/// Sensitive to the order of the data.
#[derive(Clone, Copy, Debug)]
pub struct InsertDeleteDistance;

impl Default for InsertDeleteDistance {
    fn default() -> (r: InsertDeleteDistance)
        ensures
            r == InsertDeleteDistance,
    {
        InsertDeleteDistance
    }
}

impl PartialEq for InsertDeleteDistance {
    fn eq(&self, other: &InsertDeleteDistance) -> (r: bool) {
        true
    }
}

impl vstd::std_specs::cmp::PartialEqSpecImpl for InsertDeleteDistance {
    open spec fn obeys_eq_spec() -> bool {
        true
    }

    open spec fn eq_spec(&self, other: &InsertDeleteDistance) -> bool {
        true
    }
}

impl Metric for InsertDeleteDistance {
    open spec fn same_spec(&self, other: &Self) -> bool {
        true
    }

    fn same(&self, other: &Self) -> (r: bool) {
        true
    }

    fn duplicate(&self) -> (r: Self) {
        InsertDeleteDistance
    }
}

/// The smallest number of changed records that make two data sets of one size
/// equal.
///
/// Insensitive to the order of the data; the data set size must be known.
#[derive(Clone, Copy, Debug)]
pub struct ChangeOneDistance;

impl Default for ChangeOneDistance {
    fn default() -> (r: ChangeOneDistance)
        ensures
            r == ChangeOneDistance,
    {
        ChangeOneDistance
    }
}

impl PartialEq for ChangeOneDistance {
    fn eq(&self, other: &ChangeOneDistance) -> (r: bool) {
        true
    }
}

impl vstd::std_specs::cmp::PartialEqSpecImpl for ChangeOneDistance {
    open spec fn obeys_eq_spec() -> bool {
        true
    }

    open spec fn eq_spec(&self, other: &ChangeOneDistance) -> bool {
        true
    }
}

impl Metric for ChangeOneDistance {
    open spec fn same_spec(&self, other: &Self) -> bool {
        true
    }

    fn same(&self, other: &Self) -> (r: bool) {
        true
    }

    fn duplicate(&self) -> (r: Self) {
        ChangeOneDistance
    }
}

/// The number of indices at which two data sets of one size differ.
///
/// Sensitive to the order of the data; the data set size must be known.
#[derive(Clone, Copy, Debug)]
pub struct HammingDistance;

impl Default for HammingDistance {
    fn default() -> (r: HammingDistance)
        ensures
            r == HammingDistance,
    {
        HammingDistance
    }
}

impl PartialEq for HammingDistance {
    fn eq(&self, other: &HammingDistance) -> (r: bool) {
        true
    }
}

impl vstd::std_specs::cmp::PartialEqSpecImpl for HammingDistance {
    open spec fn obeys_eq_spec() -> bool {
        true
    }

    open spec fn eq_spec(&self, other: &HammingDistance) -> bool {
        true
    }
}

impl Metric for HammingDistance {
    open spec fn same_spec(&self, other: &Self) -> bool {
        true
    }

    fn same(&self, other: &Self) -> (r: bool) {
        true
    }

    fn duplicate(&self) -> (r: Self) {
        HammingDistance
    }
}

/// Whether two values differ: zero when equal, one otherwise.
#[derive(Clone, Copy, Debug)]
pub struct DiscreteDistance;

impl Default for DiscreteDistance {
    fn default() -> (r: DiscreteDistance)
        ensures
            r == DiscreteDistance,
    {
        DiscreteDistance
    }
}

impl PartialEq for DiscreteDistance {
    fn eq(&self, other: &DiscreteDistance) -> (r: bool) {
        true
    }
}

impl vstd::std_specs::cmp::PartialEqSpecImpl for DiscreteDistance {
    open spec fn obeys_eq_spec() -> bool {
        true
    }

    open spec fn eq_spec(&self, other: &DiscreteDistance) -> bool {
        true
    }
}

impl Metric for DiscreteDistance {
    open spec fn same_spec(&self, other: &Self) -> bool {
        true
    }

    fn same(&self, other: &Self) -> (r: bool) {
        true
    }

    fn duplicate(&self) -> (r: Self) {
        DiscreteDistance
    }
}

/// Metrics on whole data sets, whose distances count records.
pub trait MicrodataMetric: Metric {
    /// Whether neighbouring data sets have the same number of records.
    spec fn sized_spec() -> bool;

    /// Whether the metric is sensitive to the order of records.
    spec fn ordered_spec() -> bool;

    /// Whether neighbouring data sets have the same number of records.
    fn sized() -> (r: bool)
        ensures
            r == Self::sized_spec(),
    ;

    /// Whether the metric is sensitive to the order of records.
    fn ordered() -> (r: bool)
        ensures
            r == Self::ordered_spec(),
    ;
}

/// Microdata metrics at the level of single events, each with a canonical
/// instance.
pub trait EventLevelMetric: MicrodataMetric + Default {
}

impl MicrodataMetric for SymmetricDistance {
    open spec fn sized_spec() -> bool {
        false
    }

    open spec fn ordered_spec() -> bool {
        false
    }

    fn sized() -> (r: bool) {
        false
    }

    fn ordered() -> (r: bool) {
        false
    }
}

impl EventLevelMetric for SymmetricDistance {
}

impl MicrodataMetric for InsertDeleteDistance {
    open spec fn sized_spec() -> bool {
        false
    }

    open spec fn ordered_spec() -> bool {
        true
    }

    fn sized() -> (r: bool) {
        false
    }

    fn ordered() -> (r: bool) {
        true
    }
}

impl EventLevelMetric for InsertDeleteDistance {
}

impl MicrodataMetric for ChangeOneDistance {
    open spec fn sized_spec() -> bool {
        true
    }

    open spec fn ordered_spec() -> bool {
        false
    }

    fn sized() -> (r: bool) {
        true
    }

    fn ordered() -> (r: bool) {
        false
    }
}

impl EventLevelMetric for ChangeOneDistance {
}

impl MicrodataMetric for HammingDistance {
    open spec fn sized_spec() -> bool {
        true
    }

    open spec fn ordered_spec() -> bool {
        true
    }

    fn sized() -> (r: bool) {
        true
    }

    fn ordered() -> (r: bool) {
        true
    }
}

impl EventLevelMetric for HammingDistance {
}

/// The order of an Lp norm.
#[derive(Clone, Copy, Debug, PartialEq, Eq, Structural)]
pub enum NormOrder {
    L1,
    L2,
}

/// The absolute difference between two scalars, in units of `Q`.
#[derive(Debug)]
pub struct AbsoluteDistance<Q> {
    pub marker: PhantomData<Q>,
}

impl<Q> AbsoluteDistance<Q> {
    /// The absolute distance.
    pub fn new() -> (r: AbsoluteDistance<Q>) {
        AbsoluteDistance { marker: PhantomData }
    }
}

impl<Q> Metric for AbsoluteDistance<Q> {
    open spec fn same_spec(&self, other: &Self) -> bool {
        true
    }

    fn same(&self, other: &Self) -> (r: bool) {
        true
    }

    fn duplicate(&self) -> (r: Self) {
        AbsoluteDistance { marker: self.marker }
    }
}

impl<Q> Default for AbsoluteDistance<Q> {
    fn default() -> (r: AbsoluteDistance<Q>) {
        AbsoluteDistance { marker: PhantomData }
    }
}

impl<Q> Clone for AbsoluteDistance<Q> {
    fn clone(&self) -> (r: Self)
        ensures
            r == *self,
    {
        AbsoluteDistance { marker: self.marker }
    }
}

impl<Q> PartialEq for AbsoluteDistance<Q> {
    fn eq(&self, other: &AbsoluteDistance<Q>) -> (r: bool) {
        true
    }
}

impl<Q> vstd::std_specs::cmp::PartialEqSpecImpl for AbsoluteDistance<Q> {
    open spec fn obeys_eq_spec() -> bool {
        true
    }

    open spec fn eq_spec(&self, other: &AbsoluteDistance<Q>) -> bool {
        true
    }
}

/// The Lp norm of the element-wise differences of two vectors, in units of
/// `Q`; vectors of different lengths are infinitely far apart.
#[derive(Debug)]
pub struct LpDistance<Q> {
    pub order: NormOrder,
    pub marker: PhantomData<Q>,
}

impl<Q> LpDistance<Q> {
    /// The distance of the given norm order.
    pub fn new(order: NormOrder) -> (r: LpDistance<Q>)
        ensures
            r.order == order,
    {
        LpDistance { order, marker: PhantomData }
    }

    /// The L1 distance.
    pub fn l1() -> (r: LpDistance<Q>)
        ensures
            r.order == NormOrder::L1,
    {
        LpDistance::new(NormOrder::L1)
    }

    /// The L2 distance.
    pub fn l2() -> (r: LpDistance<Q>)
        ensures
            r.order == NormOrder::L2,
    {
        LpDistance::new(NormOrder::L2)
    }
}

impl<Q> Metric for LpDistance<Q> {
    open spec fn same_spec(&self, other: &Self) -> bool {
        self.order == other.order
    }

    fn same(&self, other: &Self) -> (r: bool) {
        self.order == other.order
    }

    fn duplicate(&self) -> (r: Self) {
        LpDistance { order: self.order, marker: self.marker }
    }
}

impl<Q> Clone for LpDistance<Q> {
    fn clone(&self) -> (r: Self)
        ensures
            r == *self,
    {
        LpDistance { order: self.order, marker: self.marker }
    }
}

impl<Q> PartialEq for LpDistance<Q> {
    fn eq(&self, other: &LpDistance<Q>) -> (r: bool) {
        self.order == other.order
    }
}

impl<Q> vstd::std_specs::cmp::PartialEqSpecImpl for LpDistance<Q> {
    open spec fn obeys_eq_spec() -> bool {
        true
    }

    open spec fn eq_spec(&self, other: &LpDistance<Q>) -> bool {
        self.order == other.order
    }
}

/// The greatest element-wise difference between two vectors, in units of `Q`.
///
/// When `monotonic` is set, vectors whose differences have opposing signs are
/// infinitely far apart.
#[derive(Debug)]
pub struct LInfDistance<Q> {
    pub monotonic: bool,
    pub marker: PhantomData<Q>,
}

impl<Q> LInfDistance<Q> {
    /// The distance, monotonic or not.
    pub fn new(monotonic: bool) -> (r: LInfDistance<Q>)
        ensures
            r.monotonic == monotonic,
    {
        LInfDistance { monotonic, marker: PhantomData }
    }
}

impl<Q: Number> LInfDistance<Q> {
    /// Translates a bound `d_in` on this distance into a bound on the range
    /// distance, the greatest difference between two element-wise differences.
    ///
    /// Monotonic differences cannot cancel, so the bound carries over; otherwise
    /// two differences may pull in opposite directions and the bound doubles.
    /// Fails when the doubled bound is not representable.
    pub fn range_distance(&self, d_in: Q) -> (r: Fallible<Q>)
        ensures
            self.monotonic ==> (r matches Ok(v) && v == d_in),
            !self.monotonic ==> (r is Ok <==> d_in.int_value() + d_in.int_value() <= Q::max_int()
                && Q::min_int() <= d_in.int_value() + d_in.int_value()),
            !self.monotonic ==> (r matches Ok(v) ==> v.int_value() == d_in.int_value()
                + d_in.int_value()),
            r matches Err(e) ==> e.variant == ErrorVariant::Overflow,
    {
        if self.monotonic {
            Ok(d_in)
        } else {
            d_in.inf_add(&d_in)
        }
    }
}

impl<Q> Metric for LInfDistance<Q> {
    open spec fn same_spec(&self, other: &Self) -> bool {
        self.monotonic == other.monotonic
    }

    fn same(&self, other: &Self) -> (r: bool) {
        self.monotonic == other.monotonic
    }

    fn duplicate(&self) -> (r: Self) {
        LInfDistance { monotonic: self.monotonic, marker: self.marker }
    }
}

impl<Q> Default for LInfDistance<Q> {
    /// The distance without the monotonicity requirement.
    fn default() -> (r: LInfDistance<Q>)
        ensures
            !r.monotonic,
    {
        LInfDistance { monotonic: false, marker: PhantomData }
    }
}

impl<Q> Clone for LInfDistance<Q> {
    fn clone(&self) -> (r: Self)
        ensures
            r == *self,
    {
        LInfDistance { monotonic: self.monotonic, marker: self.marker }
    }
}

impl<Q> PartialEq for LInfDistance<Q> {
    fn eq(&self, other: &LInfDistance<Q>) -> (r: bool) {
        self.monotonic == other.monotonic
    }
}

impl<Q> vstd::std_specs::cmp::PartialEqSpecImpl for LInfDistance<Q> {
    open spec fn obeys_eq_spec() -> bool {
        true
    }

    open spec fn eq_spec(&self, other: &LInfDistance<Q>) -> bool {
        self.monotonic == other.monotonic
    }
}

/// The L0 and L-infinity norms of the group-wise distances between two
/// partitioned data sets: how many groups changed, and by how much at most.
#[derive(Clone, Copy, Debug)]
pub struct L0InfDistance<M>(pub M);

impl<M: Metric> Metric for L0InfDistance<M> {
    open spec fn same_spec(&self, other: &Self) -> bool {
        self.0.same_spec(&other.0)
    }

    fn same(&self, other: &Self) -> (r: bool) {
        self.0.same(&other.0)
    }

    fn duplicate(&self) -> (r: Self) {
        L0InfDistance(self.0.duplicate())
    }
}

/// The L0, Lp and L-infinity norms of the group-wise distances between two
/// partitioned data sets: how many groups changed, their total (or euclidean)
/// change, and the greatest change in one group.
#[derive(Clone, Copy, Debug)]
pub struct L0PInfDistance<M> {
    pub order: NormOrder,
    pub inner: M,
}

impl<M> L0PInfDistance<M> {
    /// The multi-norm distance of the given order over `inner`.
    pub fn new(order: NormOrder, inner: M) -> (r: L0PInfDistance<M>)
        ensures
            r.order == order,
            r.inner == inner,
    {
        L0PInfDistance { order, inner }
    }
}

impl<M: Metric> Metric for L0PInfDistance<M> {
    open spec fn same_spec(&self, other: &Self) -> bool {
        self.order == other.order && self.inner.same_spec(&other.inner)
    }

    fn same(&self, other: &Self) -> (r: bool) {
        self.order == other.order && self.inner.same(&other.inner)
    }

    fn duplicate(&self) -> (r: Self) {
        L0PInfDistance { order: self.order, inner: self.inner.duplicate() }
    }
}

/// A distance defined outside the library and known only by its descriptor.
///
/// Two such distances are equal exactly when their descriptors are.
#[derive(Clone, Debug)]
pub struct ExtrinsicDistance {
    pub descriptor: String,
}

impl PartialEq for ExtrinsicDistance {
    fn eq(&self, other: &ExtrinsicDistance) -> (r: bool) {
        self.descriptor.eq(&other.descriptor)
    }
}

impl vstd::std_specs::cmp::PartialEqSpecImpl for ExtrinsicDistance {
    open spec fn obeys_eq_spec() -> bool {
        true
    }

    open spec fn eq_spec(&self, other: &ExtrinsicDistance) -> bool {
        self.descriptor@ == other.descriptor@
    }
}

impl Metric for ExtrinsicDistance {
    open spec fn same_spec(&self, other: &Self) -> bool {
        self.descriptor@ == other.descriptor@
    }

    fn same(&self, other: &Self) -> (r: bool) {
        self.descriptor.eq(&other.descriptor)
    }

    fn duplicate(&self) -> (r: Self) {
        ExtrinsicDistance { descriptor: self.descriptor.clone() }
    }
}

impl MetricSpace for (AtomDomain<String>, SymmetricDistance) {
    open spec fn space_ok(&self) -> bool {
        true
    }

    open spec fn space_message(&self) -> Seq<char> {
        Seq::empty()
    }

    fn check_space(&self) -> (r: Fallible<()>) {
        Ok(())
    }
}

impl<D: Domain> MetricSpace for (VectorDomain<D>, SymmetricDistance) {
    open spec fn space_ok(&self) -> bool {
        true
    }

    open spec fn space_message(&self) -> Seq<char> {
        Seq::empty()
    }

    fn check_space(&self) -> (r: Fallible<()>) {
        Ok(())
    }
}

impl<D: Domain> MetricSpace for (VectorDomain<D>, InsertDeleteDistance) {
    open spec fn space_ok(&self) -> bool {
        true
    }

    open spec fn space_message(&self) -> Seq<char> {
        Seq::empty()
    }

    fn check_space(&self) -> (r: Fallible<()>) {
        Ok(())
    }
}

impl<D: Domain> MetricSpace for (VectorDomain<D>, ChangeOneDistance) {
    open spec fn space_ok(&self) -> bool {
        self.0.size is Some
    }

    open spec fn space_message(&self) -> Seq<char> {
        "change-one distance requires a known dataset size"@
    }

    fn check_space(&self) -> (r: Fallible<()>) {
        if self.0.size.is_none() {
            Err(Error::new(ErrorVariant::MetricSpace, "change-one distance requires a known dataset size"))
        } else {
            Ok(())
        }
    }
}

impl<D: Domain> MetricSpace for (VectorDomain<D>, HammingDistance) {
    open spec fn space_ok(&self) -> bool {
        self.0.size is Some
    }

    open spec fn space_message(&self) -> Seq<char> {
        "Hamming distance requires a known dataset size"@
    }

    fn check_space(&self) -> (r: Fallible<()>) {
        if self.0.size.is_none() {
            Err(Error::new(ErrorVariant::MetricSpace, "Hamming distance requires a known dataset size"))
        } else {
            Ok(())
        }
    }
}

impl<T, Q> MetricSpace for (VectorDomain<AtomDomain<T>>, LpDistance<Q>) {
    open spec fn space_ok(&self) -> bool {
        !self.0.element_domain.nan_spec()
    }

    open spec fn space_message(&self) -> Seq<char> {
        "LpDistance requires non-nan elements"@
    }

    fn check_space(&self) -> (r: Fallible<()>) {
        if self.0.element_domain.nan() {
            Err(Error::new(ErrorVariant::MetricSpace, "LpDistance requires non-nan elements"))
        } else {
            Ok(())
        }
    }
}

impl<K, V, Q> MetricSpace for (MapDomain<AtomDomain<K>, AtomDomain<V>>, LpDistance<Q>) {
    open spec fn space_ok(&self) -> bool {
        !self.0.value_domain.nan_spec()
    }

    open spec fn space_message(&self) -> Seq<char> {
        "LpDistance requires non-nan elements"@
    }

    fn check_space(&self) -> (r: Fallible<()>) {
        if self.0.value_domain.nan() {
            Err(Error::new(ErrorVariant::MetricSpace, "LpDistance requires non-nan elements"))
        } else {
            Ok(())
        }
    }
}

impl<K, V, Q> MetricSpace for (
    MapDomain<AtomDomain<K>, AtomDomain<V>>,
    L0PInfDistance<AbsoluteDistance<Q>>,
) {
    open spec fn space_ok(&self) -> bool {
        !self.0.value_domain.nan_spec()
    }

    open spec fn space_message(&self) -> Seq<char> {
        "PartitionDistance<AbsoluteDistance<Q>> requires non-nan elements"@
    }

    fn check_space(&self) -> (r: Fallible<()>) {
        if self.0.value_domain.nan() {
            Err(Error::new(ErrorVariant::MetricSpace, "PartitionDistance<AbsoluteDistance<Q>> requires non-nan elements"))
        } else {
            Ok(())
        }
    }
}

impl<T, Q> MetricSpace for (AtomDomain<T>, AbsoluteDistance<Q>) {
    open spec fn space_ok(&self) -> bool {
        !self.0.nan_spec()
    }

    open spec fn space_message(&self) -> Seq<char> {
        "AbsoluteDistance requires non-nan elements"@
    }

    fn check_space(&self) -> (r: Fallible<()>) {
        if self.0.nan() {
            Err(Error::new(ErrorVariant::MetricSpace, "AbsoluteDistance requires non-nan elements"))
        } else {
            Ok(())
        }
    }
}

impl<T> MetricSpace for (VectorDomain<AtomDomain<T>>, L0PInfDistance<AbsoluteDistance<T>>) {
    open spec fn space_ok(&self) -> bool {
        !self.0.element_domain.nan_spec()
    }

    open spec fn space_message(&self) -> Seq<char> {
        "PartitionDistance requires non-nan elements"@
    }

    fn check_space(&self) -> (r: Fallible<()>) {
        if self.0.element_domain.nan() {
            Err(Error::new(ErrorVariant::MetricSpace, "PartitionDistance requires non-nan elements"))
        } else {
            Ok(())
        }
    }
}

impl<T> MetricSpace for (AtomDomain<T>, DiscreteDistance) {
    open spec fn space_ok(&self) -> bool {
        true
    }

    open spec fn space_message(&self) -> Seq<char> {
        Seq::empty()
    }

    fn check_space(&self) -> (r: Fallible<()>) {
        Ok(())
    }
}

impl<T> MetricSpace for (VectorDomain<AtomDomain<T>>, LInfDistance<T>) {
    open spec fn space_ok(&self) -> bool {
        !self.0.element_domain.nan_spec()
    }

    open spec fn space_message(&self) -> Seq<char> {
        "LInfDistance requires non-nan elements"@
    }

    fn check_space(&self) -> (r: Fallible<()>) {
        if self.0.element_domain.nan() {
            Err(Error::new(ErrorVariant::MetricSpace, "LInfDistance requires non-nan elements"))
        } else {
            Ok(())
        }
    }
}

} // verus!
