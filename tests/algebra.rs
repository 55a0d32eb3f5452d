use opendp::domains::{AtomDomain, DatetimeDomain, Domain, MapDomain, TimeUnit, VectorDomain};
use opendp::error::ErrorVariant;
use opendp::framework::{
    make_basic_composition, make_chain_mt, make_chain_tt, make_identity, Identity, Measurement,
    MetricSpace, Transformation,
};
use opendp::measures::{MaxDivergence, ZeroConcentratedDivergence};
use opendp::metrics::{
    AbsoluteDistance, ChangeOneDistance, HammingDistance, InsertDeleteDistance, L0PInfDistance,
    LInfDistance, LpDistance, NormOrder, SymmetricDistance,
};
use opendp::relation::Relation;
use opendp::sum::{make_bounded_sum, BoundedSum};

#[test]
fn change_one_requires_known_size() {
    let unsized_space = (VectorDomain::new(AtomDomain::<i32>::new_non_nan()), ChangeOneDistance);
    let err = unsized_space.check_space().err().unwrap();
    assert_eq!(err.variant, ErrorVariant::MetricSpace);
    assert_eq!(err.message, "change-one distance requires a known dataset size");
    let sized_space = (
        VectorDomain::new(AtomDomain::<i32>::new_non_nan()).with_size(10),
        ChangeOneDistance,
    );
    assert!(sized_space.check_space().is_ok());
}

#[test]
fn hamming_requires_known_size() {
    let unsized_space = (VectorDomain::new(AtomDomain::<i64>::new_non_nan()), HammingDistance);
    let err = unsized_space.check_space().err().unwrap();
    assert_eq!(err.message, "Hamming distance requires a known dataset size");
    let sized_space = (
        VectorDomain::new(AtomDomain::<i64>::new_non_nan()).with_size(3),
        HammingDistance,
    );
    assert!(sized_space.check_space().is_ok());
}

#[test]
fn transformation_construction_applies_gate() {
    let made = Transformation::new(
        VectorDomain::new(AtomDomain::<i32>::new_non_nan()),
        AtomDomain::<i32>::new_non_nan(),
        BoundedSum::<i32>::new(),
        ChangeOneDistance,
        AbsoluteDistance::<i32>::new(),
        Relation::Linear(1),
    );
    assert_eq!(made.err().unwrap().variant, ErrorVariant::MetricSpace);
    let made = Transformation::new(
        VectorDomain::new(AtomDomain::<i32>::new_non_nan()).with_size(4),
        AtomDomain::<i32>::new_non_nan(),
        BoundedSum::<i32>::new(),
        ChangeOneDistance,
        AbsoluteDistance::<i32>::new(),
        Relation::Linear(1),
    );
    assert!(made.is_ok());
}

#[test]
fn absolute_distance_requires_non_nan() {
    let err = (AtomDomain::<f64>::new_nan_allowed(), AbsoluteDistance::<f64>::new())
        .check_space()
        .err()
        .unwrap();
    assert_eq!(err.variant, ErrorVariant::MetricSpace);
    assert_eq!(err.message, "AbsoluteDistance requires non-nan elements");
    assert!((AtomDomain::<f64>::new_non_nan(), AbsoluteDistance::<f64>::new())
        .check_space()
        .is_ok());
}

#[test]
fn lp_and_linf_require_non_nan() {
    let err = (VectorDomain::new(AtomDomain::<f32>::new_nan_allowed()), LpDistance::<f32>::l1())
        .check_space()
        .err()
        .unwrap();
    assert_eq!(err.message, "LpDistance requires non-nan elements");
    assert!((VectorDomain::new(AtomDomain::<f32>::new_non_nan()), LpDistance::<f32>::l2())
        .check_space()
        .is_ok());
    let err = (VectorDomain::new(AtomDomain::<f64>::new_nan_allowed()), LInfDistance::<f64>::new(false))
        .check_space()
        .err()
        .unwrap();
    assert_eq!(err.message, "LInfDistance requires non-nan elements");
    assert!((VectorDomain::new(AtomDomain::<f64>::new_non_nan()), LInfDistance::<f64>::new(true))
        .check_space()
        .is_ok());
    let map_space = (
        MapDomain::new(AtomDomain::<i32>::new_non_nan(), AtomDomain::<f64>::new_nan_allowed()),
        LpDistance::<f64>::l2(),
    );
    assert_eq!(map_space.check_space().err().unwrap().message, "LpDistance requires non-nan elements");
    let partition_space = (
        VectorDomain::new(AtomDomain::<f64>::new_nan_allowed()),
        L0PInfDistance::new(NormOrder::L1, AbsoluteDistance::<f64>::new()),
    );
    assert_eq!(
        partition_space.check_space().err().unwrap().message,
        "PartitionDistance requires non-nan elements"
    );
}

#[test]
fn unsized_metrics_accept_any_vector_domain() {
    assert!((VectorDomain::new(AtomDomain::<u32>::new_non_nan()), SymmetricDistance)
        .check_space()
        .is_ok());
    assert!((VectorDomain::new(AtomDomain::<u32>::new_non_nan()), InsertDeleteDistance)
        .check_space()
        .is_ok());
}

#[test]
fn domain_membership() {
    let atom = AtomDomain::<i32>::new_closed((0, 10)).unwrap();
    assert!(atom.member(&0).unwrap());
    assert!(atom.member(&10).unwrap());
    assert!(!atom.member(&11).unwrap());
    assert!(!atom.member(&-1).unwrap());
    let vector = VectorDomain::new(atom).with_size(3);
    assert!(vector.member(&vec![1, 2, 3]).unwrap());
    assert!(!vector.member(&vec![1, 2]).unwrap());
    assert!(!vector.member(&vec![1, 2, 30]).unwrap());
    let map = MapDomain::new(
        AtomDomain::<u32>::new_closed((0, 2)).unwrap(),
        AtomDomain::<i64>::new_non_nan(),
    );
    assert!(map.member(&vec![(0, -5), (2, 7)]).unwrap());
    assert!(!map.member(&vec![(3, 0)]).unwrap());
    let datetime = DatetimeDomain { time_unit: TimeUnit::Milliseconds, time_zone: None };
    assert!(datetime.member(&1_700_000_000_000).unwrap());
}

#[test]
fn closed_domain_rejects_inverted_bounds() {
    let err = AtomDomain::<i32>::new_closed((3, 2)).err().unwrap();
    assert_eq!(err.variant, ErrorVariant::MakeDomain);
    assert!(AtomDomain::<i32>::new_closed((2, 2)).is_ok());
}

#[test]
fn domains_compare_by_parameters() {
    let a = AtomDomain::<i32>::new_closed((0, 10)).unwrap();
    let b = AtomDomain::<i32>::new_closed((0, 10)).unwrap();
    let c = AtomDomain::<i32>::new_closed((0, 11)).unwrap();
    assert!(a.same(&b));
    assert!(!a.same(&c));
    assert!(a.duplicate().same(&a));
    let d1 = DatetimeDomain { time_unit: TimeUnit::Nanoseconds, time_zone: Some("UTC".to_string()) };
    let d2 = DatetimeDomain { time_unit: TimeUnit::Nanoseconds, time_zone: Some("UTC".to_string()) };
    let d3 = DatetimeDomain { time_unit: TimeUnit::Nanoseconds, time_zone: None };
    assert!(d1.same(&d2));
    assert!(!d1.same(&d3));
}

#[test]
fn chain_with_identity_keeps_relation() {
    let sum = make_bounded_sum::<i32>((0, 10)).unwrap();
    let reference = make_bounded_sum::<i32>((0, 10)).unwrap();
    let identity =
        make_identity(AtomDomain::<i32>::new_non_nan(), AbsoluteDistance::<i32>::new()).unwrap();
    let chained = make_chain_tt(&identity, &sum).unwrap();
    for d_in in 0..5u64 {
        for d_out in 0..60u64 {
            assert_eq!(
                chained.check(d_in, d_out).unwrap(),
                reference.check(d_in, d_out).unwrap()
            );
        }
    }
    assert_eq!(chained.invoke(&vec![1, 2, 3]).unwrap(), 6);
}

#[test]
fn chain_rejects_mismatched_domains() {
    let sum = make_bounded_sum::<i32>((0, 10)).unwrap();
    let identity = make_identity(
        AtomDomain::<i32>::new_closed((0, 100)).unwrap(),
        AbsoluteDistance::<i32>::new(),
    )
    .unwrap();
    let err = make_chain_tt(&identity, &sum).err().unwrap();
    assert_eq!(err.variant, ErrorVariant::DomainMismatch);
}

fn sum_measurement(
    epsilon_per_record: u64,
) -> Measurement<VectorDomain<AtomDomain<i32>>, SymmetricDistance, MaxDivergence, BoundedSum<i32>> {
    Measurement::new(
        VectorDomain::new(AtomDomain::<i32>::new_closed((0, 10)).unwrap()),
        BoundedSum::new(),
        SymmetricDistance,
        MaxDivergence,
        Relation::Linear(epsilon_per_record),
    )
    .unwrap()
}

#[test]
fn basic_composition_adds_losses() {
    let m0 = sum_measurement(2);
    let m1 = sum_measurement(3);
    assert!(m0.check(1, 2).unwrap());
    assert!(m1.check(1, 3).unwrap());
    let composed = make_basic_composition(&m0, &m1).unwrap();
    assert!(composed.check(1, 5).unwrap());
    assert!(!composed.check(1, 4).unwrap());
    assert!(composed.check(2, 10).unwrap());
    assert_eq!(composed.invoke(&vec![1, 2, 3]).unwrap(), (6, 6));
}

#[test]
fn composition_leaves_parts_reusable() {
    let m0 = sum_measurement(2);
    let m1 = sum_measurement(3);
    let first = make_basic_composition(&m0, &m1).unwrap();
    let second = make_basic_composition(&m1, &m0).unwrap();
    assert!(first.check(1, 5).unwrap());
    assert!(second.check(1, 5).unwrap());
    assert!(m0.check(1, 2).unwrap());
    assert!(!m0.check(1, 1).unwrap());
    let sum = make_bounded_sum::<i32>((0, 10)).unwrap();
    let release = Measurement::new(
        AtomDomain::<i32>::new_non_nan(),
        Identity::<i32>::new(),
        AbsoluteDistance::<i32>::new(),
        MaxDivergence,
        Relation::Linear(1),
    )
    .unwrap();
    let a = make_chain_mt(&release, &sum).unwrap();
    let b = make_chain_mt(&release, &sum).unwrap();
    assert_eq!(a.invoke(&vec![2, 3]).unwrap(), b.invoke(&vec![2, 3]).unwrap());
    assert_eq!(sum.invoke(&vec![2, 3]).unwrap(), 5);
}

#[test]
fn partition_over_map_requires_non_nan() {
    let space = (
        MapDomain::new(AtomDomain::<i32>::new_non_nan(), AtomDomain::<f64>::new_nan_allowed()),
        L0PInfDistance::new(NormOrder::L2, AbsoluteDistance::<f64>::new()),
    );
    assert_eq!(
        space.check_space().err().unwrap().message,
        "PartitionDistance<AbsoluteDistance<Q>> requires non-nan elements"
    );
}

#[test]
fn basic_composition_rejects_mismatched_inputs() {
    let m0 = sum_measurement(1);
    let m1 = Measurement::new(
        VectorDomain::new(AtomDomain::<i32>::new_closed((0, 5)).unwrap()),
        BoundedSum::<i32>::new(),
        SymmetricDistance,
        MaxDivergence,
        Relation::Linear(1),
    )
    .unwrap();
    let err = make_basic_composition(&m0, &m1).err().unwrap();
    assert_eq!(err.variant, ErrorVariant::DomainMismatch);
}

#[test]
fn chain_measurement_after_transformation() {
    let sum = make_bounded_sum::<i32>((0, 10)).unwrap();
    let release = Measurement::new(
        AtomDomain::<i32>::new_non_nan(),
        Identity::<i32>::new(),
        AbsoluteDistance::<i32>::new(),
        ZeroConcentratedDivergence,
        Relation::Linear(3),
    )
    .unwrap();
    let chained = make_chain_mt(&release, &sum).unwrap();
    assert!(chained.check(1, 30).unwrap());
    assert!(!chained.check(1, 29).unwrap());
    assert_eq!(chained.invoke(&vec![4, 5]).unwrap(), 9);
}
