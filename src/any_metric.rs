//! Metrics behind one erased type, for callers that pick metrics at run time.
//!
//! Each metric carries a type tag from a closed family of scalar types; the
//! erased metric offers an equality test, a debug text and type descriptors,
//! and typed views check the tag before use.

use vstd::prelude::*;
use std::marker::PhantomData;
use crate::arith::Number;
use crate::error::{Error, ErrorVariant, Fallible};
use crate::framework::Metric;
use crate::metrics::{
    AbsoluteDistance, ChangeOneDistance, DiscreteDistance, ExtrinsicDistance, HammingDistance,
    InsertDeleteDistance, L0PInfDistance, LInfDistance, LpDistance, NormOrder, SymmetricDistance,
};

verus! {

/// The closed family of scalar types that data and distances may have.
#[derive(Clone, Copy, Debug, PartialEq, Eq, Structural)]
pub enum ScalarType {
    Bool,
    String,
    I8,
    I16,
    I32,
    I64,
    U8,
    U16,
    U32,
    U64,
    Usize,
    Float32,
    Float64,
}

/// The Rust name of a scalar type.
pub open spec fn scalar_name(t: ScalarType) -> Seq<char> {
    match t {
        ScalarType::Bool => "bool"@,
        ScalarType::String => "String"@,
        ScalarType::I8 => "i8"@,
        ScalarType::I16 => "i16"@,
        ScalarType::I32 => "i32"@,
        ScalarType::I64 => "i64"@,
        ScalarType::U8 => "u8"@,
        ScalarType::U16 => "u16"@,
        ScalarType::U32 => "u32"@,
        ScalarType::U64 => "u64"@,
        ScalarType::Usize => "usize"@,
        ScalarType::Float32 => "f32"@,
        ScalarType::Float64 => "f64"@,
    }
}

/// Whether a scalar type is numeric.
pub open spec fn is_number(t: ScalarType) -> bool {
    !(t is Bool) && !(t is String)
}

/// Whether the L-infinity distance is offered in units of a scalar type.
pub open spec fn has_linf(t: ScalarType) -> bool {
    t is U32 || t is U64 || t is I32 || t is I64 || t is Usize || t is Float32 || t is Float64
}

impl ScalarType {
    /// The Rust name of the type.
    pub fn name(&self) -> (r: &'static str)
        ensures
            r@ == scalar_name(*self),
    {
        match self {
            ScalarType::Bool => "bool",
            ScalarType::String => "String",
            ScalarType::I8 => "i8",
            ScalarType::I16 => "i16",
            ScalarType::I32 => "i32",
            ScalarType::I64 => "i64",
            ScalarType::U8 => "u8",
            ScalarType::U16 => "u16",
            ScalarType::U32 => "u32",
            ScalarType::U64 => "u64",
            ScalarType::Usize => "usize",
            ScalarType::Float32 => "f32",
            ScalarType::Float64 => "f64",
        }
    }

    /// Whether the type is numeric.
    pub fn is_number(&self) -> (r: bool)
        ensures
            r == is_number(*self),
    {
        !matches!(self, ScalarType::Bool | ScalarType::String)
    }
}

/// The metric that a partition distance applies within each group.
#[derive(Clone, Copy, Debug, PartialEq, Eq, Structural)]
pub enum PartitionInner {
    Symmetric,
    Absolute(ScalarType),
}

/// A metric of any kind, with its parameters and type tags.
#[derive(Clone, Debug)]
pub enum AnyMetric {
    Symmetric,
    InsertDelete,
    ChangeOne,
    Hamming,
    Discrete,
    Absolute(ScalarType),
    Lp(NormOrder, ScalarType),
    LInf(bool, ScalarType),
    L0PInf(NormOrder, PartitionInner),
    User(String),
}

/// The type of the distances a metric measures in.
#[derive(Clone, Copy, Debug, PartialEq, Eq, Structural)]
pub enum DistanceType {
    /// One scalar.
    Scalar(ScalarType),
    /// A count of changed groups followed by two scalars.
    Partition(ScalarType),
    /// A value defined outside the library.
    Extrinsic,
}

/// Whether two metrics have the same kind and parameters.
pub open spec fn metric_eq(a: AnyMetric, b: AnyMetric) -> bool {
    match (a, b) {
        (AnyMetric::User(x), AnyMetric::User(y)) => x@ == y@,
        (AnyMetric::User(_), _) => false,
        (_, AnyMetric::User(_)) => false,
        _ => a == b,
    }
}

/// The type of the distances of `m`.
pub open spec fn distance_type(m: AnyMetric) -> DistanceType {
    match m {
        AnyMetric::Absolute(q) => DistanceType::Scalar(q),
        AnyMetric::Lp(_, q) => DistanceType::Scalar(q),
        AnyMetric::LInf(_, q) => DistanceType::Scalar(q),
        AnyMetric::L0PInf(_, PartitionInner::Symmetric) => DistanceType::Partition(ScalarType::U32),
        AnyMetric::L0PInf(_, PartitionInner::Absolute(q)) => DistanceType::Partition(q),
        AnyMetric::User(_) => DistanceType::Extrinsic,
        _ => DistanceType::Scalar(ScalarType::U32),
    }
}

/// The descriptor of a distance type.
pub open spec fn distance_type_text(d: DistanceType) -> Seq<char> {
    match d {
        DistanceType::Scalar(q) => scalar_name(q),
        DistanceType::Partition(q) => "(u32, "@ + scalar_name(q) + ", "@ + scalar_name(q) + ")"@,
        DistanceType::Extrinsic => "ExtrinsicObject"@,
    }
}

/// The digit of a norm order.
pub open spec fn order_digit(o: NormOrder) -> Seq<char> {
    match o {
        NormOrder::L1 => "1"@,
        NormOrder::L2 => "2"@,
    }
}

/// The debug text of a partition distance's inner metric.
pub open spec fn inner_debug_text(i: PartitionInner) -> Seq<char> {
    match i {
        PartitionInner::Symmetric => "SymmetricDistance()"@,
        PartitionInner::Absolute(q) => "AbsoluteDistance("@ + scalar_name(q) + ")"@,
    }
}

/// The type descriptor of a partition distance's inner metric.
pub open spec fn inner_type_text(i: PartitionInner) -> Seq<char> {
    match i {
        PartitionInner::Symmetric => "SymmetricDistance"@,
        PartitionInner::Absolute(q) => "AbsoluteDistance<"@ + scalar_name(q) + ">"@,
    }
}

/// The text that `debug_string` of a `str` gives: the text quoted, with quotes,
/// backslashes and unprintable characters escaped.
pub uninterp spec fn debug_escaped(s: Seq<char>) -> Seq<char>;

/// Relies on the `Debug` impl of `str`, reached through `format!`: the quoted
/// and escaped text depends on the text alone.
#[verifier::external_body]
fn debug_string(s: &str) -> (r: String)
    ensures
        r@ == debug_escaped(s@),
{
    format!("{:?}", s)
}

/// The debug text of `m`.
pub open spec fn debug_text(m: AnyMetric) -> Seq<char> {
    match m {
        AnyMetric::Symmetric => "SymmetricDistance()"@,
        AnyMetric::InsertDelete => "InsertDeleteDistance()"@,
        AnyMetric::ChangeOne => "ChangeOneDistance()"@,
        AnyMetric::Hamming => "HammingDistance()"@,
        AnyMetric::Discrete => "DiscreteDistance()"@,
        AnyMetric::Absolute(q) => "AbsoluteDistance("@ + scalar_name(q) + ")"@,
        AnyMetric::Lp(o, q) => "L"@ + order_digit(o) + "Distance("@ + scalar_name(q) + ")"@,
        AnyMetric::LInf(monotonic, q) => "LInfDistance("@ + (if monotonic {
            "monotonic, "@
        } else {
            Seq::empty()
        }) + "T="@ + scalar_name(q) + ")"@,
        AnyMetric::L0PInf(o, i) => "L0"@ + order_digit(o) + "InfDistance("@ + inner_debug_text(i)
            + ")"@,
        AnyMetric::User(d) => "UserDistance("@ + debug_escaped(d@) + ")"@,
    }
}

/// The type descriptor of `m`.
pub open spec fn type_text(m: AnyMetric) -> Seq<char> {
    match m {
        AnyMetric::Symmetric => "SymmetricDistance"@,
        AnyMetric::InsertDelete => "InsertDeleteDistance"@,
        AnyMetric::ChangeOne => "ChangeOneDistance"@,
        AnyMetric::Hamming => "HammingDistance"@,
        AnyMetric::Discrete => "DiscreteDistance"@,
        AnyMetric::Absolute(q) => "AbsoluteDistance<"@ + scalar_name(q) + ">"@,
        AnyMetric::Lp(o, q) => "L"@ + order_digit(o) + "Distance<"@ + scalar_name(q) + ">"@,
        AnyMetric::LInf(_, q) => "LInfDistance<"@ + scalar_name(q) + ">"@,
        AnyMetric::L0PInf(o, i) => "L0"@ + order_digit(o) + "InfDistance<"@ + inner_type_text(i)
            + ">"@,
        AnyMetric::User(_) => "ExtrinsicDistance"@,
    }
}

fn order_digit_str(o: NormOrder) -> (r: &'static str)
    ensures
        r@ == order_digit(o),
{
    match o {
        NormOrder::L1 => "1",
        NormOrder::L2 => "2",
    }
}

impl PartitionInner {
    fn debug(&self) -> (r: String)
        ensures
            r@ == inner_debug_text(*self),
    {
        match self {
            PartitionInner::Symmetric => String::from_str("SymmetricDistance()"),
            PartitionInner::Absolute(q) => {
                let mut s = String::from_str("AbsoluteDistance(");
                s.append(q.name());
                s.append(")");
                s
            },
        }
    }

    fn type_descriptor(&self) -> (r: String)
        ensures
            r@ == inner_type_text(*self),
    {
        match self {
            PartitionInner::Symmetric => String::from_str("SymmetricDistance"),
            PartitionInner::Absolute(q) => {
                let mut s = String::from_str("AbsoluteDistance<");
                s.append(q.name());
                s.append(">");
                s
            },
        }
    }
}

impl DistanceType {
    /// The descriptor of the distance type.
    pub fn descriptor(&self) -> (r: String)
        ensures
            r@ == distance_type_text(*self),
    {
        match self {
            DistanceType::Scalar(q) => String::from_str(q.name()),
            DistanceType::Partition(q) => {
                let mut s = String::from_str("(u32, ");
                s.append(q.name());
                s.append(", ");
                s.append(q.name());
                s.append(")");
                s
            },
            DistanceType::Extrinsic => String::from_str("ExtrinsicObject"),
        }
    }
}

impl AnyMetric {
    /// The type of the distances of the metric.
    pub fn distance_type(&self) -> (r: DistanceType)
        ensures
            r == distance_type(*self),
    {
        match self {
            AnyMetric::Absolute(q) => DistanceType::Scalar(*q),
            AnyMetric::Lp(_, q) => DistanceType::Scalar(*q),
            AnyMetric::LInf(_, q) => DistanceType::Scalar(*q),
            AnyMetric::L0PInf(_, PartitionInner::Symmetric) => DistanceType::Partition(ScalarType::U32),
            AnyMetric::L0PInf(_, PartitionInner::Absolute(q)) => DistanceType::Partition(*q),
            AnyMetric::User(_) => DistanceType::Extrinsic,
            _ => DistanceType::Scalar(ScalarType::U32),
        }
    }

    /// The debug text of the metric.
    pub fn debug(&self) -> (r: String)
        ensures
            r@ == debug_text(*self),
    {
        match self {
            AnyMetric::Symmetric => String::from_str("SymmetricDistance()"),
            AnyMetric::InsertDelete => String::from_str("InsertDeleteDistance()"),
            AnyMetric::ChangeOne => String::from_str("ChangeOneDistance()"),
            AnyMetric::Hamming => String::from_str("HammingDistance()"),
            AnyMetric::Discrete => String::from_str("DiscreteDistance()"),
            AnyMetric::Absolute(q) => {
                let mut s = String::from_str("AbsoluteDistance(");
                s.append(q.name());
                s.append(")");
                s
            },
            AnyMetric::Lp(o, q) => {
                let mut s = String::from_str("L");
                s.append(order_digit_str(*o));
                s.append("Distance(");
                s.append(q.name());
                s.append(")");
                s
            },
            AnyMetric::LInf(monotonic, q) => {
                let mut s = String::from_str("LInfDistance(");
                if *monotonic {
                    s.append("monotonic, ");
                }
                s.append("T=");
                s.append(q.name());
                s.append(")");
                proof {
                    if !*monotonic {
                        assert("LInfDistance("@ + Seq::<char>::empty() =~= "LInfDistance("@);
                    }
                }
                s
            },
            AnyMetric::L0PInf(o, i) => {
                let mut s = String::from_str("L0");
                s.append(order_digit_str(*o));
                s.append("InfDistance(");
                let inner = i.debug();
                s.append(inner.as_str());
                s.append(")");
                s
            },
            AnyMetric::User(d) => {
                let mut s = String::from_str("UserDistance(");
                let quoted = debug_string(d.as_str());
                s.append(quoted.as_str());
                s.append(")");
                s
            },
        }
    }

    /// The type descriptor of the metric.
    pub fn type_descriptor(&self) -> (r: String)
        ensures
            r@ == type_text(*self),
    {
        match self {
            AnyMetric::Symmetric => String::from_str("SymmetricDistance"),
            AnyMetric::InsertDelete => String::from_str("InsertDeleteDistance"),
            AnyMetric::ChangeOne => String::from_str("ChangeOneDistance"),
            AnyMetric::Hamming => String::from_str("HammingDistance"),
            AnyMetric::Discrete => String::from_str("DiscreteDistance"),
            AnyMetric::Absolute(q) => {
                let mut s = String::from_str("AbsoluteDistance<");
                s.append(q.name());
                s.append(">");
                s
            },
            AnyMetric::Lp(o, q) => {
                let mut s = String::from_str("L");
                s.append(order_digit_str(*o));
                s.append("Distance<");
                s.append(q.name());
                s.append(">");
                s
            },
            AnyMetric::LInf(_, q) => {
                let mut s = String::from_str("LInfDistance<");
                s.append(q.name());
                s.append(">");
                s
            },
            AnyMetric::L0PInf(o, i) => {
                let mut s = String::from_str("L0");
                s.append(order_digit_str(*o));
                s.append("InfDistance<");
                let inner = i.type_descriptor();
                s.append(inner.as_str());
                s.append(">");
                s
            },
            AnyMetric::User(_) => String::from_str("ExtrinsicDistance"),
        }
    }

    /// A copy of the metric.
    pub fn duplicate(&self) -> (r: AnyMetric)
        ensures
            metric_eq(r, *self),
    {
        match self {
            AnyMetric::Symmetric => AnyMetric::Symmetric,
            AnyMetric::InsertDelete => AnyMetric::InsertDelete,
            AnyMetric::ChangeOne => AnyMetric::ChangeOne,
            AnyMetric::Hamming => AnyMetric::Hamming,
            AnyMetric::Discrete => AnyMetric::Discrete,
            AnyMetric::Absolute(q) => AnyMetric::Absolute(*q),
            AnyMetric::Lp(o, q) => AnyMetric::Lp(*o, *q),
            AnyMetric::LInf(m, q) => AnyMetric::LInf(*m, *q),
            AnyMetric::L0PInf(o, i) => AnyMetric::L0PInf(*o, *i),
            AnyMetric::User(d) => AnyMetric::User(d.clone()),
        }
    }

    /// Whether two metrics have the same kind and parameters.
    pub fn same(&self, other: &AnyMetric) -> (r: bool)
        ensures
            r == metric_eq(*self, *other),
    {
        match (self, other) {
            (AnyMetric::Symmetric, AnyMetric::Symmetric) => true,
            (AnyMetric::InsertDelete, AnyMetric::InsertDelete) => true,
            (AnyMetric::ChangeOne, AnyMetric::ChangeOne) => true,
            (AnyMetric::Hamming, AnyMetric::Hamming) => true,
            (AnyMetric::Discrete, AnyMetric::Discrete) => true,
            (AnyMetric::Absolute(p), AnyMetric::Absolute(q)) => p == q,
            (AnyMetric::Lp(o, p), AnyMetric::Lp(n, q)) => o == n && p == q,
            (AnyMetric::LInf(a, p), AnyMetric::LInf(b, q)) => a == b && p == q,
            (AnyMetric::L0PInf(o, i), AnyMetric::L0PInf(n, j)) => o == n && i == j,
            (AnyMetric::User(x), AnyMetric::User(y)) => x.eq(y),
            _ => false,
        }
    }
}

impl PartialEq for AnyMetric {
    fn eq(&self, other: &AnyMetric) -> (r: bool) {
        self.same(other)
    }
}

impl vstd::std_specs::cmp::PartialEqSpecImpl for AnyMetric {
    open spec fn obeys_eq_spec() -> bool {
        true
    }

    open spec fn eq_spec(&self, other: &AnyMetric) -> bool {
        metric_eq(*self, *other)
    }
}

/// The `SymmetricDistance` metric.
pub fn opendp_metrics__symmetric_distance() -> (r: AnyMetric)
    ensures
        r == AnyMetric::Symmetric,
{
    AnyMetric::Symmetric
}

/// The `InsertDeleteDistance` metric.
pub fn opendp_metrics__insert_delete_distance() -> (r: AnyMetric)
    ensures
        r == AnyMetric::InsertDelete,
{
    AnyMetric::InsertDelete
}

/// The `ChangeOneDistance` metric.
pub fn opendp_metrics__change_one_distance() -> (r: AnyMetric)
    ensures
        r == AnyMetric::ChangeOne,
{
    AnyMetric::ChangeOne
}

/// The `HammingDistance` metric.
pub fn opendp_metrics__hamming_distance() -> (r: AnyMetric)
    ensures
        r == AnyMetric::Hamming,
{
    AnyMetric::Hamming
}

/// The `DiscreteDistance` metric.
pub fn opendp_metrics__discrete_distance() -> (r: AnyMetric)
    ensures
        r == AnyMetric::Discrete,
{
    AnyMetric::Discrete
}

fn no_match() -> (e: Error)
    ensures
        e.variant == ErrorVariant::FFI,
{
    Error::new(ErrorVariant::FFI, "no match for concrete type")
}

/// The `AbsoluteDistance` metric in units of `t`; fails unless `t` is numeric.
pub fn opendp_metrics__absolute_distance(t: ScalarType) -> (r: Fallible<AnyMetric>)
    ensures
        r is Ok <==> is_number(t),
        r matches Ok(m) ==> m == AnyMetric::Absolute(t),
        r matches Err(e) ==> e.variant == ErrorVariant::FFI,
{
    if t.is_number() {
        Ok(AnyMetric::Absolute(t))
    } else {
        Err(no_match())
    }
}

/// The `L1Distance` metric in units of `t`; fails unless `t` is numeric.
pub fn opendp_metrics__l1_distance(t: ScalarType) -> (r: Fallible<AnyMetric>)
    ensures
        r is Ok <==> is_number(t),
        r matches Ok(m) ==> m == AnyMetric::Lp(NormOrder::L1, t),
        r matches Err(e) ==> e.variant == ErrorVariant::FFI,
{
    if t.is_number() {
        Ok(AnyMetric::Lp(NormOrder::L1, t))
    } else {
        Err(no_match())
    }
}

/// The `L2Distance` metric in units of `t`; fails unless `t` is numeric.
pub fn opendp_metrics__l2_distance(t: ScalarType) -> (r: Fallible<AnyMetric>)
    ensures
        r is Ok <==> is_number(t),
        r matches Ok(m) ==> m == AnyMetric::Lp(NormOrder::L2, t),
        r matches Err(e) ==> e.variant == ErrorVariant::FFI,
{
    if t.is_number() {
        Ok(AnyMetric::Lp(NormOrder::L2, t))
    } else {
        Err(no_match())
    }
}

/// The `L01InfDistance` metric over `metric` within each group; fails unless
/// `metric` is the symmetric distance or an absolute distance over a numeric
/// type.
pub fn opendp_metrics__l01inf_distance(metric: &AnyMetric) -> (r: Fallible<AnyMetric>)
    ensures
        r is Ok <==> (*metric is Symmetric || (*metric matches AnyMetric::Absolute(q) && is_number(q))),
        r matches Ok(m) ==> m == match *metric {
            AnyMetric::Absolute(q) => AnyMetric::L0PInf(NormOrder::L1, PartitionInner::Absolute(q)),
            _ => AnyMetric::L0PInf(NormOrder::L1, PartitionInner::Symmetric),
        },
        r matches Err(e) ==> e.variant == ErrorVariant::FFI,
{
    match metric {
        AnyMetric::Symmetric => Ok(AnyMetric::L0PInf(NormOrder::L1, PartitionInner::Symmetric)),
        AnyMetric::Absolute(q) if q.is_number() => Ok(
            AnyMetric::L0PInf(NormOrder::L1, PartitionInner::Absolute(*q)),
        ),
        _ => Err(no_match()),
    }
}

/// The `L02InfDistance` metric over `metric` within each group; fails unless
/// `metric` is an absolute distance over a numeric type.
pub fn opendp_metrics__l02inf_distance(metric: &AnyMetric) -> (r: Fallible<AnyMetric>)
    ensures
        r is Ok <==> (*metric matches AnyMetric::Absolute(q) && is_number(q)),
        r matches Ok(m) ==> *metric matches AnyMetric::Absolute(q) && m == AnyMetric::L0PInf(
            NormOrder::L2,
            PartitionInner::Absolute(q),
        ),
        r matches Err(e) ==> e.variant == ErrorVariant::FFI,
{
    match metric {
        AnyMetric::Absolute(q) if q.is_number() => Ok(
            AnyMetric::L0PInf(NormOrder::L2, PartitionInner::Absolute(*q)),
        ),
        _ => Err(no_match()),
    }
}

/// The `LInfDistance` metric in units of `t`; fails unless the distance is
/// offered in that type.
pub fn opendp_metrics__linf_distance(monotonic: bool, t: ScalarType) -> (r: Fallible<AnyMetric>)
    ensures
        r is Ok <==> has_linf(t),
        r matches Ok(m) ==> m == AnyMetric::LInf(monotonic, t),
        r matches Err(e) ==> e.variant == ErrorVariant::FFI,
{
    match t {
        ScalarType::U32 | ScalarType::U64 | ScalarType::I32 | ScalarType::I64 | ScalarType::Usize
        | ScalarType::Float32 | ScalarType::Float64 => Ok(AnyMetric::LInf(monotonic, t)),
        _ => Err(no_match()),
    }
}

/// A metric defined outside the library, known by `descriptor`. Two such
/// metrics are equal exactly when their descriptors are.
pub fn opendp_metrics__user_distance(descriptor: String) -> (r: AnyMetric)
    ensures
        r matches AnyMetric::User(d) && d@ == descriptor@,
{
    AnyMetric::User(descriptor)
}

/// Whether two metrics are equal.
pub fn opendp_metrics___metric_equal(left: &AnyMetric, right: &AnyMetric) -> (r: bool)
    ensures
        r == metric_eq(*left, *right),
{
    left.same(right)
}

/// The debug text of a metric.
pub fn opendp_metrics__metric_debug(this: &AnyMetric) -> (r: String)
    ensures
        r@ == debug_text(*this),
{
    this.debug()
}

/// The type descriptor of a metric.
pub fn opendp_metrics__metric_type(this: &AnyMetric) -> (r: String)
    ensures
        r@ == type_text(*this),
{
    this.type_descriptor()
}

/// The descriptor of the distance type of a metric.
pub fn opendp_metrics__metric_distance_type(this: &AnyMetric) -> (r: String)
    ensures
        r@ == distance_type_text(distance_type(*this)),
{
    this.distance_type().descriptor()
}

/// The message of a distance type mismatch.
pub open spec fn mismatch_text(expected: ScalarType, found: DistanceType) -> Seq<char> {
    "unexpected distance type in metric. Expected "@ + scalar_name(expected) + ", got "@
        + distance_type_text(found)
}

/// An erased metric known to measure distances in `Q`.
///
/// There is no default: a typed metric is only ever made by checking an erased
/// one.
#[derive(Debug)]
pub struct TypedMetric<Q> {
    metric: AnyMetric,
    marker: PhantomData<Q>,
}

impl<Q> TypedMetric<Q> {
    /// The erased metric.
    pub closed spec fn metric_spec(&self) -> AnyMetric {
        self.metric
    }

    /// The erased metric.
    pub fn metric(&self) -> (r: &AnyMetric)
        ensures
            *r == self.metric_spec(),
    {
        &self.metric
    }

    /// The debug text of the erased metric.
    pub fn debug(&self) -> (r: String)
        ensures
            r@ == debug_text(self.metric_spec()),
    {
        self.metric.debug()
    }
}

impl<Q: Number> TypedMetric<Q> {
    /// Views `metric` as measuring in `Q`; fails unless its distance type is
    /// the scalar `Q`.
    pub fn new(metric: AnyMetric) -> (r: Fallible<TypedMetric<Q>>)
        ensures
            r is Ok <==> distance_type(metric) == DistanceType::Scalar(Q::tag()),
            r matches Ok(t) ==> t.metric_spec() == metric,
            r matches Err(e) ==> e.variant == ErrorVariant::FFI && e.message@ == mismatch_text(
                Q::tag(),
                distance_type(metric),
            ),
    {
        let expected = Q::scalar_type();
        let found = metric.distance_type();
        if found != DistanceType::Scalar(expected) {
            let mut message = String::from_str("unexpected distance type in metric. Expected ");
            message.append(expected.name());
            message.append(", got ");
            let text = found.descriptor();
            message.append(text.as_str());
            return Err(Error { variant: ErrorVariant::FFI, message });
        }
        Ok(TypedMetric { metric, marker: PhantomData })
    }
}

impl<Q> Clone for TypedMetric<Q> {
    fn clone(&self) -> (r: Self)
        ensures
            metric_eq(r.metric_spec(), self.metric_spec()),
    {
        TypedMetric { metric: self.metric.duplicate(), marker: self.marker }
    }
}

impl<Q> PartialEq for TypedMetric<Q> {
    fn eq(&self, other: &TypedMetric<Q>) -> (r: bool) {
        self.metric.same(&other.metric)
    }
}

impl<Q> vstd::std_specs::cmp::PartialEqSpecImpl for TypedMetric<Q> {
    open spec fn obeys_eq_spec() -> bool {
        true
    }

    open spec fn eq_spec(&self, other: &TypedMetric<Q>) -> bool {
        metric_eq(self.metric_spec(), other.metric_spec())
    }
}

/// Typed metrics that can be erased into an `AnyMetric`.
pub trait Erase: Metric {
    /// The erased metric.
    spec fn erase_spec(&self) -> AnyMetric;

    /// Erases the metric, keeping its kind, parameters and type tags.
    fn erase(&self) -> (r: AnyMetric)
        ensures
            metric_eq(r, self.erase_spec()),
    ;

    /// Metrics with the same parameters erase to equal metrics.
    proof fn lemma_erase_same(&self, other: &Self)
        requires
            self.same_spec(other),
        ensures
            metric_eq(self.erase_spec(), other.erase_spec()),
    ;
}

impl Erase for SymmetricDistance {
    open spec fn erase_spec(&self) -> AnyMetric {
        AnyMetric::Symmetric
    }

    fn erase(&self) -> (r: AnyMetric) {
        AnyMetric::Symmetric
    }

    proof fn lemma_erase_same(&self, other: &Self) {
    }
}

impl Erase for InsertDeleteDistance {
    open spec fn erase_spec(&self) -> AnyMetric {
        AnyMetric::InsertDelete
    }

    fn erase(&self) -> (r: AnyMetric) {
        AnyMetric::InsertDelete
    }

    proof fn lemma_erase_same(&self, other: &Self) {
    }
}

impl Erase for ChangeOneDistance {
    open spec fn erase_spec(&self) -> AnyMetric {
        AnyMetric::ChangeOne
    }

    fn erase(&self) -> (r: AnyMetric) {
        AnyMetric::ChangeOne
    }

    proof fn lemma_erase_same(&self, other: &Self) {
    }
}

impl Erase for HammingDistance {
    open spec fn erase_spec(&self) -> AnyMetric {
        AnyMetric::Hamming
    }

    fn erase(&self) -> (r: AnyMetric) {
        AnyMetric::Hamming
    }

    proof fn lemma_erase_same(&self, other: &Self) {
    }
}

impl Erase for DiscreteDistance {
    open spec fn erase_spec(&self) -> AnyMetric {
        AnyMetric::Discrete
    }

    fn erase(&self) -> (r: AnyMetric) {
        AnyMetric::Discrete
    }

    proof fn lemma_erase_same(&self, other: &Self) {
    }
}

impl<Q: Number> Erase for AbsoluteDistance<Q> {
    open spec fn erase_spec(&self) -> AnyMetric {
        AnyMetric::Absolute(Q::tag())
    }

    fn erase(&self) -> (r: AnyMetric) {
        AnyMetric::Absolute(Q::scalar_type())
    }

    proof fn lemma_erase_same(&self, other: &Self) {
    }
}

impl<Q: Number> Erase for LpDistance<Q> {
    open spec fn erase_spec(&self) -> AnyMetric {
        AnyMetric::Lp(self.order, Q::tag())
    }

    fn erase(&self) -> (r: AnyMetric) {
        AnyMetric::Lp(self.order, Q::scalar_type())
    }

    proof fn lemma_erase_same(&self, other: &Self) {
    }
}

impl<Q: Number> Erase for LInfDistance<Q> {
    open spec fn erase_spec(&self) -> AnyMetric {
        AnyMetric::LInf(self.monotonic, Q::tag())
    }

    fn erase(&self) -> (r: AnyMetric) {
        AnyMetric::LInf(self.monotonic, Q::scalar_type())
    }

    proof fn lemma_erase_same(&self, other: &Self) {
    }
}

impl Erase for L0PInfDistance<SymmetricDistance> {
    open spec fn erase_spec(&self) -> AnyMetric {
        AnyMetric::L0PInf(self.order, PartitionInner::Symmetric)
    }

    fn erase(&self) -> (r: AnyMetric) {
        AnyMetric::L0PInf(self.order, PartitionInner::Symmetric)
    }

    proof fn lemma_erase_same(&self, other: &Self) {
    }
}

impl<Q: Number> Erase for L0PInfDistance<AbsoluteDistance<Q>> {
    open spec fn erase_spec(&self) -> AnyMetric {
        AnyMetric::L0PInf(self.order, PartitionInner::Absolute(Q::tag()))
    }

    fn erase(&self) -> (r: AnyMetric) {
        AnyMetric::L0PInf(self.order, PartitionInner::Absolute(Q::scalar_type()))
    }

    proof fn lemma_erase_same(&self, other: &Self) {
    }
}

impl Erase for ExtrinsicDistance {
    open spec fn erase_spec(&self) -> AnyMetric {
        AnyMetric::User(self.descriptor)
    }

    fn erase(&self) -> (r: AnyMetric) {
        AnyMetric::User(self.descriptor.clone())
    }

    proof fn lemma_erase_same(&self, other: &Self) {
    }
}

/// Metrics with the same kind and parameters have the same debug text, type
/// descriptor and distance type, however they were built.
pub proof fn lemma_equal_metrics_describe_alike(a: AnyMetric, b: AnyMetric)
    requires
        metric_eq(a, b),
    ensures
        debug_text(a) == debug_text(b),
        type_text(a) == type_text(b),
        distance_type(a) == distance_type(b),
{
}

} // verus!
