//! The principal abstractions: metrics, measures, metric spaces, functions,
//! transformations and measurements.

use vstd::prelude::*;
use std::marker::PhantomData;
use crate::domains::Domain;
use crate::error::{Error, ErrorVariant, Fallible};
use crate::relation::{Relation, bound, failure, holds, max_distance};

verus! {

/// A distance between data sets, or a unit of privacy loss.
///
/// Metrics carry no data beyond their parameters; two metrics of one type are
/// interchangeable exactly when their parameters agree.
pub trait Metric: Sized {
    /// Whether two metrics have the same parameters.
    spec fn same_spec(&self, other: &Self) -> bool;

    /// Decides whether two metrics have the same parameters.
    fn same(&self, other: &Self) -> (r: bool)
        ensures
            r == self.same_spec(other),
    ;

    /// A copy of the metric.
    fn duplicate(&self) -> (r: Self)
        ensures
            r == *self,
    ;
}

/// A pairing of a domain with a metric, with the joint invariant the pairing
/// must satisfy.
pub trait MetricSpace {
    /// Whether the pairing is valid.
    spec fn space_ok(&self) -> bool;

    /// The explanation given when the pairing is invalid.
    spec fn space_message(&self) -> Seq<char>;

    /// Accepts exactly the valid pairings.
    fn check_space(&self) -> (r: Fallible<()>)
        ensures
            r is Ok <==> self.space_ok(),
            r matches Err(e) ==> e.variant == ErrorVariant::MetricSpace && e.message@
                == self.space_message(),
    ;
}

/// A pure mapping from inputs to fallible outputs.
pub trait Function {
    type Input;
    type Output;

    /// The output for `x`, or `None` where the function fails.
    spec fn apply_spec(&self, x: &Self::Input) -> Option<Self::Output>;

    /// Evaluates the function.
    fn apply(&self, x: &Self::Input) -> (r: Fallible<Self::Output>)
        ensures
            match self.apply_spec(x) {
                Some(y) => r matches Ok(z) && z == y,
                None => r is Err,
            },
    ;

    /// A copy of the function.
    fn duplicate(&self) -> (r: Self) where Self: Sized
        ensures
            r == *self,
    ;
}

/// A data-to-data operator with a stability relation between its input and
/// output metrics.
///
/// Both `(input_domain, input_metric)` and `(output_domain, output_metric)` are
/// valid metric spaces: construction checks it, and nothing changes a
/// transformation afterwards.
pub struct Transformation<DI, DO, MI, MO, F> where (DI, MI): MetricSpace, (DO, MO): MetricSpace {
    input_domain: DI,
    output_domain: DO,
    input_metric: MI,
    output_metric: MO,
    function: F,
    stability_map: Relation,
}

impl<DI, DO, MI, MO, F> Transformation<DI, DO, MI, MO, F> where
    (DI, MI): MetricSpace,
    (DO, MO): MetricSpace,
 {
    #[verifier::type_invariant]
    spec fn inv(self) -> bool {
        &&& (self.input_domain, self.input_metric).space_ok()
        &&& (self.output_domain, self.output_metric).space_ok()
    }

    pub closed spec fn input_domain_spec(self) -> DI {
        self.input_domain
    }

    pub closed spec fn output_domain_spec(self) -> DO {
        self.output_domain
    }

    pub closed spec fn input_metric_spec(self) -> MI {
        self.input_metric
    }

    pub closed spec fn output_metric_spec(self) -> MO {
        self.output_metric
    }

    pub closed spec fn function_spec(self) -> F {
        self.function
    }

    pub closed spec fn stability_map_spec(self) -> Relation {
        self.stability_map
    }

    /// A transformation from its parts; fails unless both metric spaces are
    /// valid.
    pub fn new(
        input_domain: DI,
        output_domain: DO,
        function: F,
        input_metric: MI,
        output_metric: MO,
        stability_map: Relation,
    ) -> (r: Fallible<Self>)
        ensures
            r is Ok <==> (input_domain, input_metric).space_ok() && (output_domain, output_metric).space_ok(),
            r matches Ok(t) ==> {
                &&& t.input_domain_spec() == input_domain
                &&& t.output_domain_spec() == output_domain
                &&& t.input_metric_spec() == input_metric
                &&& t.output_metric_spec() == output_metric
                &&& t.function_spec() == function
                &&& t.stability_map_spec() == stability_map
            },
            r matches Err(e) ==> e.variant == ErrorVariant::MetricSpace,
    {
        let input_space = (input_domain, input_metric);
        input_space.check_space()?;
        let output_space = (output_domain, output_metric);
        output_space.check_space()?;
        let (input_domain, input_metric) = input_space;
        let (output_domain, output_metric) = output_space;
        Ok(Transformation { input_domain, output_domain, input_metric, output_metric, function, stability_map })
    }

    pub fn input_domain(&self) -> (r: &DI)
        ensures
            *r == self.input_domain_spec(),
    {
        &self.input_domain
    }

    pub fn output_domain(&self) -> (r: &DO)
        ensures
            *r == self.output_domain_spec(),
    {
        &self.output_domain
    }

    pub fn input_metric(&self) -> (r: &MI)
        ensures
            *r == self.input_metric_spec(),
    {
        &self.input_metric
    }

    pub fn output_metric(&self) -> (r: &MO)
        ensures
            *r == self.output_metric_spec(),
    {
        &self.output_metric
    }

    pub fn stability_map(&self) -> (r: &Relation)
        ensures
            *r == self.stability_map_spec(),
    {
        &self.stability_map
    }

    /// Decides whether inputs at most `d_in` apart are mapped to outputs at most
    /// `d_out` apart, by the stability relation.
    pub fn check(&self, d_in: u64, d_out: u64) -> (r: Fallible<bool>)
        ensures
            match bound(self.stability_map_spec(), d_in as nat) {
                Some(v) => r matches Ok(b) && b == (v <= d_out),
                None => r matches Err(e) && e.variant == failure(self.stability_map_spec(), d_in as nat),
            },
    {
        self.stability_map.eval(d_in, d_out)
    }
}

impl<DI: Domain, DO: Domain, MI, MO, F: Function<Input = DI::Carrier, Output = DO::Carrier>> Transformation<DI, DO, MI, MO, F> where
    (DI, MI): MetricSpace,
    (DO, MO): MetricSpace,
 {
    /// Applies the function to `arg`.
    pub fn invoke(&self, arg: &DI::Carrier) -> (r: Fallible<DO::Carrier>)
        ensures
            match self.function_spec().apply_spec(arg) {
                Some(y) => r matches Ok(z) && z == y,
                None => r is Err,
            },
    {
        self.function.apply(arg)
    }
}

/// A data-to-release operator with a privacy relation between its input metric
/// and its output measure.
///
/// `(input_domain, input_metric)` is a valid metric space: construction checks
/// it, and nothing changes a measurement afterwards.
pub struct Measurement<DI, MI, MO, F> where (DI, MI): MetricSpace {
    input_domain: DI,
    input_metric: MI,
    output_measure: MO,
    function: F,
    privacy_map: Relation,
}

impl<DI, MI, MO, F> Measurement<DI, MI, MO, F> where (DI, MI): MetricSpace {
    #[verifier::type_invariant]
    spec fn inv(self) -> bool {
        (self.input_domain, self.input_metric).space_ok()
    }

    pub closed spec fn input_domain_spec(self) -> DI {
        self.input_domain
    }

    pub closed spec fn input_metric_spec(self) -> MI {
        self.input_metric
    }

    pub closed spec fn output_measure_spec(self) -> MO {
        self.output_measure
    }

    pub closed spec fn function_spec(self) -> F {
        self.function
    }

    pub closed spec fn privacy_map_spec(self) -> Relation {
        self.privacy_map
    }

    /// A measurement from its parts; fails unless the input metric space is
    /// valid.
    pub fn new(
        input_domain: DI,
        function: F,
        input_metric: MI,
        output_measure: MO,
        privacy_map: Relation,
    ) -> (r: Fallible<Self>)
        ensures
            r is Ok <==> (input_domain, input_metric).space_ok(),
            r matches Ok(m) ==> {
                &&& m.input_domain_spec() == input_domain
                &&& m.input_metric_spec() == input_metric
                &&& m.output_measure_spec() == output_measure
                &&& m.function_spec() == function
                &&& m.privacy_map_spec() == privacy_map
            },
            r matches Err(e) ==> e.variant == ErrorVariant::MetricSpace,
    {
        let input_space = (input_domain, input_metric);
        input_space.check_space()?;
        let (input_domain, input_metric) = input_space;
        Ok(Measurement { input_domain, input_metric, output_measure, function, privacy_map })
    }

    pub fn input_domain(&self) -> (r: &DI)
        ensures
            *r == self.input_domain_spec(),
    {
        &self.input_domain
    }

    pub fn input_metric(&self) -> (r: &MI)
        ensures
            *r == self.input_metric_spec(),
    {
        &self.input_metric
    }

    pub fn output_measure(&self) -> (r: &MO)
        ensures
            *r == self.output_measure_spec(),
    {
        &self.output_measure
    }

    pub fn privacy_map(&self) -> (r: &Relation)
        ensures
            *r == self.privacy_map_spec(),
    {
        &self.privacy_map
    }

    /// Decides whether inputs at most `d_in` apart yield a privacy loss of at
    /// most `d_out`, by the privacy relation.
    pub fn check(&self, d_in: u64, d_out: u64) -> (r: Fallible<bool>)
        ensures
            match bound(self.privacy_map_spec(), d_in as nat) {
                Some(v) => r matches Ok(b) && b == (v <= d_out),
                None => r matches Err(e) && e.variant == failure(self.privacy_map_spec(), d_in as nat),
            },
    {
        self.privacy_map.eval(d_in, d_out)
    }
}

impl<DI: Domain, MI, MO, F: Function<Input = DI::Carrier>> Measurement<DI, MI, MO, F> where
    (DI, MI): MetricSpace,
 {
    /// Applies the function to `arg`.
    pub fn invoke(&self, arg: &DI::Carrier) -> (r: Fallible<F::Output>)
        ensures
            match self.function_spec().apply_spec(arg) {
                Some(y) => r matches Ok(z) && z == y,
                None => r is Err,
            },
    {
        self.function.apply(arg)
    }
}

/// The identity function.
pub struct Identity<T> {
    marker: PhantomData<T>,
}

impl<T> Identity<T> {
    pub fn new() -> (r: Identity<T>) {
        Identity { marker: PhantomData }
    }
}

impl<T: Copy> Function for Identity<T> {
    type Input = T;
    type Output = T;

    open spec fn apply_spec(&self, x: &T) -> Option<T> {
        Some(*x)
    }

    fn apply(&self, x: &T) -> (r: Fallible<T>) {
        Ok(*x)
    }

    fn duplicate(&self) -> (r: Self) {
        Identity { marker: self.marker }
    }
}

/// `first`, then `second` on its output.
pub struct Chained<F0, F1> {
    pub first: F0,
    pub second: F1,
}

impl<F0: Function, F1: Function<Input = F0::Output>> Function for Chained<F0, F1> {
    type Input = F0::Input;
    type Output = F1::Output;

    open spec fn apply_spec(&self, x: &F0::Input) -> Option<F1::Output> {
        match self.first.apply_spec(x) {
            Some(y) => self.second.apply_spec(&y),
            None => None,
        }
    }

    fn apply(&self, x: &F0::Input) -> (r: Fallible<F1::Output>) {
        let y = self.first.apply(x)?;
        self.second.apply(&y)
    }

    fn duplicate(&self) -> (r: Self) {
        Chained { first: self.first.duplicate(), second: self.second.duplicate() }
    }
}

/// `first` and `second` on one input, their outputs side by side.
pub struct Paired<F0, F1> {
    pub first: F0,
    pub second: F1,
}

impl<F0: Function, F1: Function<Input = F0::Input>> Function for Paired<F0, F1> {
    type Input = F0::Input;
    type Output = (F0::Output, F1::Output);

    open spec fn apply_spec(&self, x: &F0::Input) -> Option<(F0::Output, F1::Output)> {
        match (self.first.apply_spec(x), self.second.apply_spec(x)) {
            (Some(a), Some(b)) => Some((a, b)),
            _ => None,
        }
    }

    fn apply(&self, x: &F0::Input) -> (r: Fallible<(F0::Output, F1::Output)>) {
        let a = self.first.apply(x)?;
        let b = self.second.apply(x)?;
        Ok((a, b))
    }

    fn duplicate(&self) -> (r: Self) {
        Paired { first: self.first.duplicate(), second: self.second.duplicate() }
    }
}

/// The identity transformation on a metric space: values and distances pass
/// through unchanged.
pub fn make_identity<D: Domain, M: Metric>(domain: D, metric: M) -> (r: Fallible<
    Transformation<D, D, M, M, Identity<D::Carrier>>,
>) where (D, M): MetricSpace, D::Carrier: Copy
    ensures
        r is Ok <==> (domain, metric).space_ok(),
        r matches Ok(t) ==> {
            &&& t.input_domain_spec() == domain
            &&& t.output_domain_spec() == domain
            &&& t.input_metric_spec() == metric
            &&& t.output_metric_spec() == metric
            &&& t.stability_map_spec() == Relation::Linear(1)
        },
        r matches Err(e) ==> e.variant == ErrorVariant::MetricSpace,
{
    let space = (domain, metric);
    space.check_space()?;
    let (domain, metric) = space;
    let output_domain = domain.duplicate();
    let output_metric = metric.duplicate();
    Ok(
        Transformation {
            input_domain: domain,
            output_domain,
            input_metric: metric,
            output_metric,
            function: Identity::new(),
            stability_map: Relation::Linear(1),
        },
    )
}

/// The sequential composition of two transformations: `t0` first, then `t1`.
///
/// Valid only where the output domain and metric of `t0` are those of the input
/// of `t1`. The stability relation of the result feeds the tightest bound of
/// `t0` to `t1`, so it holds exactly where some intermediate bound links the two
/// relations. The parts are copied; `t0` and `t1` stay usable.
pub fn make_chain_tt<DI, DX, DO, MI, MX, MO, F0, F1>(
    t1: &Transformation<DX, DO, MX, MO, F1>,
    t0: &Transformation<DI, DX, MI, MX, F0>,
) -> (r: Fallible<Transformation<DI, DO, MI, MO, Chained<F0, F1>>>) where
    DI: Domain,
    DX: Domain,
    DO: Domain,
    MI: Metric,
    MX: Metric,
    MO: Metric,
    F0: Function,
    F1: Function,
    (DI, MI): MetricSpace,
    (DX, MX): MetricSpace,
    (DO, MO): MetricSpace,

    ensures
        r is Ok <==> t0.output_domain_spec().same_spec(&t1.input_domain_spec())
            && t0.output_metric_spec().same_spec(&t1.input_metric_spec()),
        r matches Ok(t) ==> {
            &&& t.input_domain_spec() == t0.input_domain_spec()
            &&& t.output_domain_spec() == t1.output_domain_spec()
            &&& t.input_metric_spec() == t0.input_metric_spec()
            &&& t.output_metric_spec() == t1.output_metric_spec()
            &&& t.function_spec() == Chained { first: t0.function_spec(), second: t1.function_spec() }
            &&& t.stability_map_spec() == Relation::Chain(
                Box::new(t0.stability_map_spec()),
                Box::new(t1.stability_map_spec()),
            )
        },
        r matches Err(e) ==> if !t0.output_domain_spec().same_spec(&t1.input_domain_spec()) {
            e.variant == ErrorVariant::DomainMismatch
        } else {
            e.variant == ErrorVariant::MetricMismatch
        },
{
    proof {
        use_type_invariant(t0);
        use_type_invariant(t1);
    }
    if !t0.output_domain.same(&t1.input_domain) {
        return Err(Error::new(ErrorVariant::DomainMismatch, "intermediate domains don't match"));
    }
    if !t0.output_metric.same(&t1.input_metric) {
        return Err(Error::new(ErrorVariant::MetricMismatch, "intermediate metrics don't match"));
    }
    Ok(
        Transformation {
            input_domain: t0.input_domain.duplicate(),
            output_domain: t1.output_domain.duplicate(),
            input_metric: t0.input_metric.duplicate(),
            output_metric: t1.output_metric.duplicate(),
            function: Chained { first: t0.function.duplicate(), second: t1.function.duplicate() },
            stability_map: Relation::Chain(
                Box::new(t0.stability_map.duplicate()),
                Box::new(t1.stability_map.duplicate()),
            ),
        },
    )
}

/// The sequential composition of a transformation `t0` and a measurement `m1`
/// that releases its output.
///
/// Valid only where the output domain and metric of `t0` are the input domain
/// and metric of `m1`. The parts are copied; `t0` and `m1` stay usable.
pub fn make_chain_mt<DI, DX, MI, MX, MO, F0, F1>(
    m1: &Measurement<DX, MX, MO, F1>,
    t0: &Transformation<DI, DX, MI, MX, F0>,
) -> (r: Fallible<Measurement<DI, MI, MO, Chained<F0, F1>>>) where
    DI: Domain,
    DX: Domain,
    MI: Metric,
    MX: Metric,
    MO: Metric,
    F0: Function,
    F1: Function,
    (DI, MI): MetricSpace,
    (DX, MX): MetricSpace,

    ensures
        r is Ok <==> t0.output_domain_spec().same_spec(&m1.input_domain_spec())
            && t0.output_metric_spec().same_spec(&m1.input_metric_spec()),
        r matches Ok(m) ==> {
            &&& m.input_domain_spec() == t0.input_domain_spec()
            &&& m.input_metric_spec() == t0.input_metric_spec()
            &&& m.output_measure_spec() == m1.output_measure_spec()
            &&& m.function_spec() == Chained { first: t0.function_spec(), second: m1.function_spec() }
            &&& m.privacy_map_spec() == Relation::Chain(
                Box::new(t0.stability_map_spec()),
                Box::new(m1.privacy_map_spec()),
            )
        },
        r matches Err(e) ==> if !t0.output_domain_spec().same_spec(&m1.input_domain_spec()) {
            e.variant == ErrorVariant::DomainMismatch
        } else {
            e.variant == ErrorVariant::MetricMismatch
        },
{
    proof {
        use_type_invariant(t0);
    }
    if !t0.output_domain.same(&m1.input_domain) {
        return Err(Error::new(ErrorVariant::DomainMismatch, "intermediate domains don't match"));
    }
    if !t0.output_metric.same(&m1.input_metric) {
        return Err(Error::new(ErrorVariant::MetricMismatch, "intermediate metrics don't match"));
    }
    Ok(
        Measurement {
            input_domain: t0.input_domain.duplicate(),
            input_metric: t0.input_metric.duplicate(),
            output_measure: m1.output_measure.duplicate(),
            function: Chained { first: t0.function.duplicate(), second: m1.function.duplicate() },
            privacy_map: Relation::Chain(
                Box::new(t0.stability_map.duplicate()),
                Box::new(m1.privacy_map.duplicate()),
            ),
        },
    )
}

/// The basic composition of two measurements on one input: both outputs are
/// released together, and the privacy losses add up.
///
/// Valid only where the two measurements share their input domain, input metric
/// and output measure. The parts are copied; `m0` and `m1` stay usable.
pub fn make_basic_composition<DI, MI, MO, F0, F1>(
    m0: &Measurement<DI, MI, MO, F0>,
    m1: &Measurement<DI, MI, MO, F1>,
) -> (r: Fallible<Measurement<DI, MI, MO, Paired<F0, F1>>>) where
    DI: Domain,
    MI: Metric,
    MO: Metric,
    F0: Function,
    F1: Function,
    (DI, MI): MetricSpace,

    ensures
        r is Ok <==> m0.input_domain_spec().same_spec(&m1.input_domain_spec())
            && m0.input_metric_spec().same_spec(&m1.input_metric_spec())
            && m0.output_measure_spec().same_spec(&m1.output_measure_spec()),
        r matches Ok(m) ==> {
            &&& m.input_domain_spec() == m0.input_domain_spec()
            &&& m.input_metric_spec() == m0.input_metric_spec()
            &&& m.output_measure_spec() == m0.output_measure_spec()
            &&& m.function_spec() == Paired { first: m0.function_spec(), second: m1.function_spec() }
            &&& m.privacy_map_spec() == Relation::Sum(
                Box::new(m0.privacy_map_spec()),
                Box::new(m1.privacy_map_spec()),
            )
        },
        r matches Err(e) ==> if !m0.input_domain_spec().same_spec(&m1.input_domain_spec()) {
            e.variant == ErrorVariant::DomainMismatch
        } else {
            e.variant == ErrorVariant::MetricMismatch
        },
{
    proof {
        use_type_invariant(m0);
    }
    if !m0.input_domain.same(&m1.input_domain) {
        return Err(Error::new(ErrorVariant::DomainMismatch, "input domains don't match"));
    }
    if !m0.input_metric.same(&m1.input_metric) {
        return Err(Error::new(ErrorVariant::MetricMismatch, "input metrics don't match"));
    }
    if !m0.output_measure.same(&m1.output_measure) {
        return Err(Error::new(ErrorVariant::MetricMismatch, "output measures don't match"));
    }
    Ok(
        Measurement {
            input_domain: m0.input_domain.duplicate(),
            input_metric: m0.input_metric.duplicate(),
            output_measure: m0.output_measure.duplicate(),
            function: Paired { first: m0.function.duplicate(), second: m1.function.duplicate() },
            privacy_map: Relation::Sum(
                Box::new(m0.privacy_map.duplicate()),
                Box::new(m1.privacy_map.duplicate()),
            ),
        },
    )
}

/// Basic composition is additive: where each of two measurements certifies
/// `(d_in, m0_loss)` and `(d_in, m1_loss)`, their composition certifies
/// `(d_in, m0_loss + m1_loss)`, whenever that total is a representable distance.
pub proof fn lemma_basic_composition_additive<DI, MI, MO, F0, F1>(
    m0: Measurement<DI, MI, MO, F0>,
    m1: Measurement<DI, MI, MO, F1>,
    composed: Measurement<DI, MI, MO, Paired<F0, F1>>,
    d_in: nat,
    m0_loss: nat,
    m1_loss: nat,
) where (DI, MI): MetricSpace
    requires
        composed.privacy_map_spec() == Relation::Sum(
            Box::new(m0.privacy_map_spec()),
            Box::new(m1.privacy_map_spec()),
        ),
        holds(m0.privacy_map_spec(), d_in, m0_loss),
        holds(m1.privacy_map_spec(), d_in, m1_loss),
        m0_loss + m1_loss <= max_distance(),
    ensures
        holds(composed.privacy_map_spec(), d_in, m0_loss + m1_loss),
{
    crate::relation::lemma_sum_additive(
        m0.privacy_map_spec(),
        m1.privacy_map_spec(),
        d_in,
        m0_loss,
        m1_loss,
    );
}

} // verus!
