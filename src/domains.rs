//! Domains: describable sets of values with a membership test.

use vstd::prelude::*;
use std::marker::PhantomData;
use crate::arith::Number;
use crate::error::{Error, ErrorVariant, Fallible};

verus! {

/// A set of values of one carrier type.
pub trait Domain: Sized {
    /// The type of the values the domain describes.
    type Carrier;

    /// Whether `v` belongs to the domain.
    spec fn member_spec(&self, v: &Self::Carrier) -> bool;

    /// Decides membership.
    fn member(&self, v: &Self::Carrier) -> (r: Fallible<bool>)
        ensures
            r matches Ok(b) && b == self.member_spec(v),
    ;

    /// Whether two domains have the same parameters.
    spec fn same_spec(&self, other: &Self) -> bool;

    /// Decides whether two domains have the same parameters.
    fn same(&self, other: &Self) -> (r: bool)
        ensures
            r == self.same_spec(other),
    ;

    /// A copy of the domain.
    fn duplicate(&self) -> (r: Self)
        ensures
            r == *self,
    ;
}

/// A closed interval of integers, `lower <= upper`, whose ends fit in `i64`
/// or `u64`.
pub struct Bounds {
    lower: i128,
    upper: i128,
}

impl Bounds {
    #[verifier::type_invariant]
    spec fn inv(self) -> bool {
        &&& self.lower <= self.upper
        &&& -0x8000_0000_0000_0000 <= self.lower
        &&& self.upper <= 0xFFFF_FFFF_FFFF_FFFF
    }

    /// The lower end.
    pub closed spec fn lower_spec(self) -> int {
        self.lower as int
    }

    /// The upper end.
    pub closed spec fn upper_spec(self) -> int {
        self.upper as int
    }

    /// The closed interval `[bounds.0, bounds.1]`; fails when the lower end
    /// exceeds the upper end.
    pub fn new_closed<T: Number>(bounds: (T, T)) -> (r: Fallible<Bounds>)
        ensures
            r is Ok <==> bounds.0.int_value() <= bounds.1.int_value(),
            r matches Ok(b) ==> b.lower_spec() == bounds.0.int_value() && b.upper_spec()
                == bounds.1.int_value(),
            r matches Err(e) ==> e.variant == ErrorVariant::MakeDomain,
    {
        let lower = bounds.0.widen();
        let upper = bounds.1.widen();
        proof {
            T::lemma_range(bounds.0);
            T::lemma_range(bounds.1);
        }
        if lower > upper {
            return Err(Error::new(ErrorVariant::MakeDomain, "lower bound may not be greater than upper bound"));
        }
        Ok(Bounds { lower, upper })
    }

    /// The lower end.
    pub fn lower(&self) -> (r: i128)
        ensures
            r == self.lower_spec(),
            self.lower_spec() <= self.upper_spec(),
            -0x8000_0000_0000_0000 <= self.lower_spec(),
            self.upper_spec() <= 0xFFFF_FFFF_FFFF_FFFF,
    {
        proof {
            use_type_invariant(self);
        }
        self.lower
    }

    /// The upper end.
    pub fn upper(&self) -> (r: i128)
        ensures
            r == self.upper_spec(),
            self.lower_spec() <= self.upper_spec(),
            -0x8000_0000_0000_0000 <= self.lower_spec(),
            self.upper_spec() <= 0xFFFF_FFFF_FFFF_FFFF,
    {
        proof {
            use_type_invariant(self);
        }
        self.upper
    }

    /// Whether two intervals have the same ends.
    pub fn same(&self, other: &Bounds) -> (r: bool)
        ensures
            r == (self.lower_spec() == other.lower_spec() && self.upper_spec() == other.upper_spec()),
    {
        self.lower == other.lower && self.upper == other.upper
    }

    /// A copy of the interval.
    pub fn duplicate(&self) -> (r: Bounds)
        ensures
            r == *self,
    {
        proof {
            use_type_invariant(self);
        }
        Bounds { lower: self.lower, upper: self.upper }
    }
}

/// The values of a primitive type, optionally restricted to a closed interval,
/// and declared to admit NaN or not.
pub struct AtomDomain<T> {
    bounds: Option<Bounds>,
    nan: bool,
    marker: PhantomData<T>,
}

impl<T> AtomDomain<T> {
    /// The declared interval, if any.
    pub closed spec fn bounds_spec(&self) -> Option<(int, int)> {
        match self.bounds {
            Some(b) => Some((b.lower_spec(), b.upper_spec())),
            None => None,
        }
    }

    /// Whether the domain admits NaN.
    pub closed spec fn nan_spec(&self) -> bool {
        self.nan
    }

    /// All values of the carrier, NaN excluded.
    pub fn new_non_nan() -> (r: AtomDomain<T>)
        ensures
            r.bounds_spec() is None,
            !r.nan_spec(),
    {
        AtomDomain { bounds: None, nan: false, marker: PhantomData }
    }

    /// All values of the carrier, NaN included where the carrier has it.
    pub fn new_nan_allowed() -> (r: AtomDomain<T>)
        ensures
            r.bounds_spec() is None,
            r.nan_spec(),
    {
        AtomDomain { bounds: None, nan: true, marker: PhantomData }
    }

    /// Whether the domain admits NaN.
    pub fn nan(&self) -> (r: bool)
        ensures
            r == self.nan_spec(),
    {
        self.nan
    }

    /// The declared interval, if any.
    pub fn bounds(&self) -> (r: Option<(i128, i128)>)
        ensures
            match r {
                Some(p) => self.bounds_spec() == Some((p.0 as int, p.1 as int)),
                None => self.bounds_spec() is None,
            },
    {
        match &self.bounds {
            Some(b) => Some((b.lower(), b.upper())),
            None => None,
        }
    }

    /// A copy of the domain.
    pub fn copy_domain(&self) -> (r: AtomDomain<T>)
        ensures
            r == *self,
    {
        let bounds = match &self.bounds {
            Some(b) => Some(b.duplicate()),
            None => None,
        };
        AtomDomain { bounds, nan: self.nan, marker: self.marker }
    }
}

impl<T: Number> AtomDomain<T> {
    /// The integers of `[bounds.0, bounds.1]`; fails when the lower end exceeds
    /// the upper end.
    pub fn new_closed(bounds: (T, T)) -> (r: Fallible<AtomDomain<T>>)
        ensures
            r is Ok <==> bounds.0.int_value() <= bounds.1.int_value(),
            r matches Ok(d) ==> d.bounds_spec() == Some((bounds.0.int_value(), bounds.1.int_value()))
                && !d.nan_spec(),
            r matches Err(e) ==> e.variant == ErrorVariant::MakeDomain,
    {
        let b = Bounds::new_closed(bounds)?;
        Ok(AtomDomain { bounds: Some(b), nan: false, marker: PhantomData })
    }
}

impl<T: Number> Domain for AtomDomain<T> {
    type Carrier = T;

    open spec fn member_spec(&self, v: &T) -> bool {
        match self.bounds_spec() {
            Some(b) => b.0 <= v.int_value() <= b.1,
            None => true,
        }
    }

    fn member(&self, v: &T) -> (r: Fallible<bool>) {
        match &self.bounds {
            Some(b) => {
                let x = v.widen();
                Ok(b.lower() <= x && x <= b.upper())
            },
            None => Ok(true),
        }
    }

    open spec fn same_spec(&self, other: &Self) -> bool {
        self.bounds_spec() == other.bounds_spec() && self.nan_spec() == other.nan_spec()
    }

    fn same(&self, other: &Self) -> (r: bool) {
        let b = match (&self.bounds, &other.bounds) {
            (Some(x), Some(y)) => x.same(y),
            (None, None) => true,
            _ => false,
        };
        b && self.nan == other.nan
    }

    fn duplicate(&self) -> (r: Self) {
        self.copy_domain()
    }
}

/// Vectors whose elements all belong to an element domain, optionally of one
/// declared length.
pub struct VectorDomain<D> {
    pub element_domain: D,
    pub size: Option<usize>,
}

impl<D> VectorDomain<D> {
    /// Vectors of any length over `element_domain`.
    pub fn new(element_domain: D) -> (r: VectorDomain<D>)
        ensures
            r.element_domain == element_domain,
            r.size is None,
    {
        VectorDomain { element_domain, size: None }
    }

    /// The same domain restricted to vectors of length `size`.
    pub fn with_size(self, size: usize) -> (r: VectorDomain<D>)
        ensures
            r.element_domain == self.element_domain,
            r.size == Some(size),
    {
        VectorDomain { element_domain: self.element_domain, size: Some(size) }
    }
}

impl<D: Domain> Domain for VectorDomain<D> {
    type Carrier = Vec<D::Carrier>;

    open spec fn member_spec(&self, v: &Vec<D::Carrier>) -> bool {
        &&& (self.size matches Some(n) ==> v@.len() == n)
        &&& forall|i: int| 0 <= i < v@.len() ==> self.element_domain.member_spec(&#[trigger] v@[i])
    }

    fn member(&self, v: &Vec<D::Carrier>) -> (r: Fallible<bool>) {
        if let Some(n) = self.size {
            if v.len() != n {
                return Ok(false);
            }
        }
        let mut i: usize = 0;
        while i < v.len()
            invariant
                0 <= i <= v@.len(),
                self.size matches Some(n) ==> v@.len() == n,
                forall|j: int| 0 <= j < i ==> self.element_domain.member_spec(&#[trigger] v@[j]),
            decreases v@.len() - i,
        {
            let ok = self.element_domain.member(&v[i])?;
            if !ok {
                return Ok(false);
            }
            i += 1;
        }
        Ok(true)
    }

    open spec fn same_spec(&self, other: &Self) -> bool {
        self.element_domain.same_spec(&other.element_domain) && self.size == other.size
    }

    fn same(&self, other: &Self) -> (r: bool) {
        self.element_domain.same(&other.element_domain) && self.size == other.size
    }

    fn duplicate(&self) -> (r: Self) {
        VectorDomain { element_domain: self.element_domain.duplicate(), size: self.size }
    }
}

/// Association lists whose keys belong to a key domain and whose values belong
/// to a value domain.
pub struct MapDomain<DK, DV> {
    pub key_domain: DK,
    pub value_domain: DV,
}

impl<DK, DV> MapDomain<DK, DV> {
    /// Maps from `key_domain` to `value_domain`.
    pub fn new(key_domain: DK, value_domain: DV) -> (r: MapDomain<DK, DV>)
        ensures
            r.key_domain == key_domain,
            r.value_domain == value_domain,
    {
        MapDomain { key_domain, value_domain }
    }
}

impl<DK: Domain, DV: Domain> Domain for MapDomain<DK, DV> {
    type Carrier = Vec<(DK::Carrier, DV::Carrier)>;

    open spec fn member_spec(&self, v: &Vec<(DK::Carrier, DV::Carrier)>) -> bool {
        forall|i: int|
            0 <= i < v@.len() ==> self.key_domain.member_spec(&(#[trigger] v@[i]).0)
                && self.value_domain.member_spec(&v@[i].1)
    }

    fn member(&self, v: &Vec<(DK::Carrier, DV::Carrier)>) -> (r: Fallible<bool>) {
        let mut i: usize = 0;
        while i < v.len()
            invariant
                0 <= i <= v@.len(),
                forall|j: int|
                    0 <= j < i ==> self.key_domain.member_spec(&(#[trigger] v@[j]).0)
                        && self.value_domain.member_spec(&v@[j].1),
            decreases v@.len() - i,
        {
            let k = self.key_domain.member(&v[i].0)?;
            let x = self.value_domain.member(&v[i].1)?;
            if !(k && x) {
                return Ok(false);
            }
            i += 1;
        }
        Ok(true)
    }

    open spec fn same_spec(&self, other: &Self) -> bool {
        self.key_domain.same_spec(&other.key_domain) && self.value_domain.same_spec(
            &other.value_domain,
        )
    }

    fn same(&self, other: &Self) -> (r: bool) {
        self.key_domain.same(&other.key_domain) && self.value_domain.same(&other.value_domain)
    }

    fn duplicate(&self) -> (r: Self) {
        MapDomain { key_domain: self.key_domain.duplicate(), value_domain: self.value_domain.duplicate() }
    }
}

/// The resolution of a timestamp.
#[derive(Clone, Copy, Debug, PartialEq, Eq, Structural)]
pub enum TimeUnit {
    Nanoseconds,
    Microseconds,
    Milliseconds,
}

/// The view of an optional string.
pub open spec fn opt_text(s: Option<String>) -> Option<Seq<char>> {
    match s {
        Some(t) => Some(t@),
        None => None,
    }
}

/// Timestamps counted in `time_unit` since the Unix epoch, in one time zone.
///
/// The time points of distinct time zones are treated as disjoint sets.
pub struct DatetimeDomain {
    pub time_unit: TimeUnit,
    pub time_zone: Option<String>,
}

impl Domain for DatetimeDomain {
    type Carrier = u64;

    open spec fn member_spec(&self, v: &u64) -> bool {
        true
    }

    fn member(&self, v: &u64) -> (r: Fallible<bool>) {
        Ok(true)
    }

    open spec fn same_spec(&self, other: &Self) -> bool {
        self.time_unit == other.time_unit && opt_text(self.time_zone) == opt_text(other.time_zone)
    }

    fn same(&self, other: &Self) -> (r: bool) {
        let zones = match (&self.time_zone, &other.time_zone) {
            (Some(a), Some(b)) => a.eq(b),
            (None, None) => true,
            _ => false,
        };
        self.time_unit == other.time_unit && zones
    }

    fn duplicate(&self) -> (r: Self) {
        let time_zone = match &self.time_zone {
            Some(z) => Some(z.clone()),
            None => None,
        };
        DatetimeDomain { time_unit: self.time_unit, time_zone }
    }
}

} // verus!
