//! Relations: monotone predicates deciding whether an output bound is honoured
//! given an input bound.
//!
//! Each relation is given by its tightest-bound map: the smallest output
//! distance it certifies for an input distance. The relation holds at
//! `(d_in, d_out)` exactly when the map is defined at `d_in` and its value does
//! not exceed `d_out`. Distances are non-negative integers that fit in `u64`;
//! where the tightest bound does not, evaluation fails with an overflow error
//! rather than certify anything.

use vstd::prelude::*;
use crate::error::{Error, ErrorVariant, Fallible};

verus! {

/// The largest representable distance.
pub open spec fn max_distance() -> nat {
    0xFFFF_FFFF_FFFF_FFFF
}

/// A relation between input and output distances, by its tightest-bound map.
pub enum Relation {
    /// `d_in` maps to `c * d_in`.
    Linear(u64),
    /// `d_in` maps to `(d_in / 2) * c`, rounding the half down: the number of
    /// changed records behind a symmetric distance between data sets of one
    /// size.
    HalvedLinear(u64),
    /// `d_in` maps to `d_in * numer / denom`, rounded up; a zero denominator
    /// certifies nothing.
    Ratio(u64, u64),
    /// The first relation's bound is fed to the second.
    Chain(Box<Relation>, Box<Relation>),
    /// The two relations' bounds are added.
    Sum(Box<Relation>, Box<Relation>),
}

/// `Some(v)` when `v` is representable as a distance.
pub open spec fn fit(v: int) -> Option<nat> {
    if 0 <= v <= max_distance() {
        Some(v as nat)
    } else {
        None
    }
}

/// The tightest output bound that `r` certifies for `d_in`, or `None` where it
/// is not representable.
pub open spec fn bound(r: Relation, d_in: nat) -> Option<nat>
    decreases r,
{
    match r {
        Relation::Linear(c) => fit(c * d_in as int),
        Relation::HalvedLinear(c) => fit((d_in / 2) * c as int),
        Relation::Ratio(n, k) => if k == 0 {
            None
        } else {
            fit(ceil_div((d_in * n) as nat, k as nat) as int)
        },
        Relation::Chain(a, b) => match bound(*a, d_in) {
            Some(m) => bound(*b, m),
            None => None,
        },
        Relation::Sum(a, b) => match (bound(*a, d_in), bound(*b, d_in)) {
            (Some(x), Some(y)) => fit(x + y as int),
            _ => None,
        },
    }
}

/// `a / b` rounded up.
pub open spec fn ceil_div(a: nat, b: nat) -> nat
    recommends
        b > 0,
{
    ((a + b - 1) as nat / b) as nat
}

/// The kind of failure of evaluating `r` at `d_in`, where `bound` is `None`:
/// an ill-formed ratio met first gives `FailedRelation`, anything else
/// `Overflow`.
pub open spec fn failure(r: Relation, d_in: nat) -> ErrorVariant
    decreases r,
{
    match r {
        Relation::Ratio(_, k) => if k == 0 {
            ErrorVariant::FailedRelation
        } else {
            ErrorVariant::Overflow
        },
        Relation::Chain(a, b) => match bound(*a, d_in) {
            Some(m) => failure(*b, m),
            None => failure(*a, d_in),
        },
        Relation::Sum(a, b) => match (bound(*a, d_in), bound(*b, d_in)) {
            (None, _) => failure(*a, d_in),
            (Some(_), None) => failure(*b, d_in),
            _ => ErrorVariant::Overflow,
        },
        _ => ErrorVariant::Overflow,
    }
}

/// Whether `r` holds at `(d_in, d_out)`.
pub open spec fn holds(r: Relation, d_in: nat, d_out: nat) -> bool {
    bound(r, d_in) matches Some(v) && v <= d_out
}

proof fn lemma_product_fits(c: u64, d: u64)
    ensures
        (c as int) * (d as int) <= 0xFFFF_FFFF_FFFF_FFFE_0000_0000_0000_0001,
        0 <= (c as int) * (d as int),
{
    assert((c as int) * (d as int) <= 0xFFFF_FFFF_FFFF_FFFF * 0xFFFF_FFFF_FFFF_FFFF) by (nonlinear_arith)
        requires
            c <= 0xFFFF_FFFF_FFFF_FFFFu64,
            d <= 0xFFFF_FFFF_FFFF_FFFFu64,
    ;
    assert(0 <= (c as int) * (d as int)) by (nonlinear_arith);
}

/// `c * d`, failing when it is not a representable distance.
fn mul_distance(c: u64, d: u64) -> (r: Fallible<u64>)
    ensures
        match fit(c * d) {
            Some(v) => r matches Ok(x) && x == v,
            None => r matches Err(e) && e.variant == ErrorVariant::Overflow,
        },
{
    proof {
        lemma_product_fits(c, d);
    }
    let p: u128 = (c as u128) * (d as u128);
    if p > u64::MAX as u128 {
        Err(Error::new(ErrorVariant::Overflow, "distance bound overflows u64"))
    } else {
        Ok(p as u64)
    }
}

/// `d * n / k` rounded up, failing when `k` is zero or the result is not a
/// representable distance.
fn ratio_distance(d: u64, n: u64, k: u64) -> (r: Fallible<u64>)
    ensures
        k == 0 ==> (r matches Err(e) && e.variant == ErrorVariant::FailedRelation),
        k > 0 ==> match fit(ceil_div((d * n) as nat, k as nat) as int) {
            Some(v) => r matches Ok(x) && x == v,
            None => r matches Err(e) && e.variant == ErrorVariant::Overflow,
        },
{
    if k == 0 {
        return Err(Error::new(ErrorVariant::FailedRelation, "distance ratio has a zero denominator"));
    }
    proof {
        lemma_product_fits(d, n);
    }
    let p: u128 = (d as u128) * (n as u128);
    let q: u128 = (p + (k as u128 - 1)) / (k as u128);
    if q > u64::MAX as u128 {
        Err(Error::new(ErrorVariant::Overflow, "distance bound overflows u64"))
    } else {
        Ok(q as u64)
    }
}

impl Relation {
    /// The tightest output bound for `d_in`; fails with an overflow error where
    /// it is not representable, and with a relation failure where a ratio has a
    /// zero denominator.
    pub fn map_bound(&self, d_in: u64) -> (r: Fallible<u64>)
        ensures
            match bound(*self, d_in as nat) {
                Some(v) => r matches Ok(x) && x == v,
                None => r matches Err(e) && e.variant == failure(*self, d_in as nat),
            },
        decreases self,
    {
        match self {
            Relation::Linear(c) => mul_distance(*c, d_in),
            Relation::HalvedLinear(c) => mul_distance(d_in / 2, *c),
            Relation::Ratio(n, k) => ratio_distance(d_in, *n, *k),
            Relation::Chain(a, b) => {
                let m = a.map_bound(d_in)?;
                b.map_bound(m)
            },
            Relation::Sum(a, b) => {
                let x = a.map_bound(d_in)?;
                let y = b.map_bound(d_in)?;
                match x.checked_add(y) {
                    Some(s) => Ok(s),
                    None => Err(Error::new(ErrorVariant::Overflow, "distance bound overflows u64")),
                }
            },
        }
    }

    /// Decides whether the relation holds at `(d_in, d_out)`.
    ///
    /// A `false` verdict means the claimed bound is not certified; an error means
    /// the tightest bound is not representable or the relation is ill-formed.
    pub fn eval(&self, d_in: u64, d_out: u64) -> (r: Fallible<bool>)
        ensures
            match bound(*self, d_in as nat) {
                Some(v) => r matches Ok(b) && b == (v <= d_out),
                None => r matches Err(e) && e.variant == failure(*self, d_in as nat),
            },
    {
        let v = self.map_bound(d_in)?;
        Ok(v <= d_out)
    }

    /// A relation with the same tightest-bound map.
    pub fn duplicate(&self) -> (r: Relation)
        ensures
            r == *self,
        decreases self,
    {
        match self {
            Relation::Linear(c) => Relation::Linear(*c),
            Relation::HalvedLinear(c) => Relation::HalvedLinear(*c),
            Relation::Ratio(n, k) => Relation::Ratio(*n, *k),
            Relation::Chain(a, b) => Relation::Chain(Box::new(a.duplicate()), Box::new(b.duplicate())),
            Relation::Sum(a, b) => Relation::Sum(Box::new(a.duplicate()), Box::new(b.duplicate())),
        }
    }
}

/// The tightest bound grows with the input bound: where it is defined at an
/// input, it is defined, and no larger, at every smaller input.
pub proof fn lemma_bound_monotone(r: Relation, d1: nat, d2: nat)
    requires
        d1 <= d2,
        bound(r, d2) is Some,
    ensures
        bound(r, d1) is Some,
        bound(r, d1)->0 <= bound(r, d2)->0,
    decreases r,
{
    match r {
        Relation::Linear(c) => {
            assert(c * d1 <= c * d2) by (nonlinear_arith)
                requires
                    d1 <= d2,
                    0 <= c,
            ;
            assert(0 <= c * d1) by (nonlinear_arith)
                requires
                    0 <= d1,
                    0 <= c,
            ;
        },
        Relation::HalvedLinear(c) => {
            let h1 = d1 / 2;
            let h2 = d2 / 2;
            assert(h1 <= h2);
            assert(h1 * c <= h2 * c) by (nonlinear_arith)
                requires
                    h1 <= h2,
                    0 <= c,
            ;
            assert(0 <= h1 * c) by (nonlinear_arith)
                requires
                    0 <= h1,
                    0 <= c,
            ;
        },
        Relation::Ratio(n, k) => {
            assert(d1 * n <= d2 * n) by (nonlinear_arith)
                requires
                    d1 <= d2,
                    0 <= n,
            ;
            assert(0 <= d1 * n) by (nonlinear_arith)
                requires
                    0 <= d1,
                    0 <= n,
            ;
            let a1 = (d1 * n + k - 1) as nat;
            let a2 = (d2 * n + k - 1) as nat;
            vstd::arithmetic::div_mod::lemma_div_is_ordered(a1 as int, a2 as int, k as int);
        },
        Relation::Chain(a, b) => {
            lemma_bound_monotone(*a, d1, d2);
            lemma_bound_monotone(*b, bound(*a, d1)->0, bound(*a, d2)->0);
        },
        Relation::Sum(a, b) => {
            lemma_bound_monotone(*a, d1, d2);
            lemma_bound_monotone(*b, d1, d2);
        },
    }
}

/// Every relation is monotonic: where it holds at `(d_in, d_out)`, it holds at
/// every `(d_in2, d_out2)` with a smaller input bound and a larger output
/// bound. Looser claims are always safe.
pub proof fn lemma_monotonic(r: Relation, d_in: nat, d_out: nat, d_in2: nat, d_out2: nat)
    requires
        holds(r, d_in, d_out),
        d_in2 <= d_in,
        d_out <= d_out2,
    ensures
        holds(r, d_in2, d_out2),
{
    lemma_bound_monotone(r, d_in2, d_in);
}

/// A chained relation holds at `(d_in, d_out)` exactly when some intermediate
/// bound `d_mid` exists at which the first relation holds from `d_in` and the
/// second holds to `d_out`.
pub proof fn lemma_chain_exact(a: Relation, b: Relation, d_in: nat, d_out: nat)
    ensures
        holds(Relation::Chain(Box::new(a), Box::new(b)), d_in, d_out) <==> exists|d_mid: nat|
            holds(a, d_in, d_mid) && holds(b, d_mid, d_out),
{
    let c = Relation::Chain(Box::new(a), Box::new(b));
    if holds(c, d_in, d_out) {
        let m = bound(a, d_in)->0;
        assert(holds(a, d_in, m) && holds(b, m, d_out));
    }
    if exists|d_mid: nat| holds(a, d_in, d_mid) && holds(b, d_mid, d_out) {
        let d_mid = choose|d_mid: nat| holds(a, d_in, d_mid) && holds(b, d_mid, d_out);
        lemma_bound_monotone(b, bound(a, d_in)->0, d_mid);
    }
}

/// A summed relation holds at `(d_in, d_out)` exactly when `d_out` splits into
/// two representable parts at which the two relations hold from `d_in`.
pub proof fn lemma_sum_exact(a: Relation, b: Relation, d_in: nat, d_out: nat)
    requires
        d_out <= max_distance(),
    ensures
        holds(Relation::Sum(Box::new(a), Box::new(b)), d_in, d_out) <==> exists|e1: nat, e2: nat|
            e1 + e2 <= d_out && holds(a, d_in, e1) && holds(b, d_in, e2),
{
    let s = Relation::Sum(Box::new(a), Box::new(b));
    if holds(s, d_in, d_out) {
        let e1 = bound(a, d_in)->0;
        let e2 = bound(b, d_in)->0;
        assert(e1 + e2 <= d_out && holds(a, d_in, e1) && holds(b, d_in, e2));
    }
}

/// Composing two relations by sum is additive: where they hold at `(d_in, m1)`
/// and `(d_in, m2)`, the sum holds at `(d_in, m1 + m2)` whenever that total is
/// representable.
pub proof fn lemma_sum_additive(a: Relation, b: Relation, d_in: nat, m1: nat, m2: nat)
    requires
        holds(a, d_in, m1),
        holds(b, d_in, m2),
        m1 + m2 <= max_distance(),
    ensures
        holds(Relation::Sum(Box::new(a), Box::new(b)), d_in, m1 + m2),
{
}

/// Every tightest bound is a representable distance.
pub proof fn lemma_bound_fits(r: Relation, d_in: nat)
    ensures
        bound(r, d_in) matches Some(v) ==> v <= max_distance(),
    decreases r,
{
    match r {
        Relation::Chain(a, b) => {
            if let Some(m) = bound(*a, d_in) {
                lemma_bound_fits(*b, m);
            }
        },
        _ => {},
    }
}

/// Chaining a relation with the identity relation, on either side, changes
/// nothing: the tightest bounds agree at every representable input.
pub proof fn lemma_chain_identity(r: Relation, d_in: nat)
    ensures
        bound(Relation::Chain(Box::new(r), Box::new(Relation::Linear(1))), d_in) == bound(r, d_in),
        d_in <= max_distance() ==> bound(Relation::Chain(Box::new(Relation::Linear(1)), Box::new(r)), d_in)
            == bound(r, d_in),
        forall|d_out: nat|
            holds(Relation::Chain(Box::new(r), Box::new(Relation::Linear(1))), d_in, d_out) <==> holds(
                r,
                d_in,
                d_out,
            ),
{
    let id = Relation::Linear(1);
    lemma_bound_fits(r, d_in);
    if let Some(v) = bound(r, d_in) {
        assert(bound(id, v) == fit(1 * v as int));
        assert(bound(id, v) == Some(v));
    }
    assert(bound(id, d_in) == fit(1 * d_in as int));
}

} // verus!
