use opendp::arith::Number;
use opendp::relation::Relation;
use opendp::tooling::generic_names;
use opendp::any_metric::{
    opendp_metrics___metric_equal, opendp_metrics__absolute_distance,
    opendp_metrics__change_one_distance, opendp_metrics__l01inf_distance,
    opendp_metrics__l02inf_distance, opendp_metrics__l1_distance, opendp_metrics__linf_distance,
    opendp_metrics__metric_debug, opendp_metrics__metric_distance_type, opendp_metrics__metric_type,
    opendp_metrics__symmetric_distance, opendp_metrics__user_distance, AnyMetric, ScalarType,
    Erase, TypedMetric,
};
use opendp::error::ErrorVariant;
use opendp::metrics::{
    AbsoluteDistance, ExtrinsicDistance, L0PInfDistance, LInfDistance, LpDistance, NormOrder,
    SymmetricDistance,
};

#[test]
fn range_distance_doubles_unless_monotonic() {
    assert_eq!(LInfDistance::<i32>::new(false).range_distance(5).unwrap(), 10);
    assert_eq!(LInfDistance::<i32>::new(true).range_distance(5).unwrap(), 5);
    let err = LInfDistance::<i32>::new(false).range_distance(i32::MAX).err().unwrap();
    assert_eq!(err.variant, ErrorVariant::Overflow);
    assert_eq!(LInfDistance::<u64>::new(true).range_distance(u64::MAX).unwrap(), u64::MAX);
}

#[test]
fn equal_metrics_have_equal_debug() {
    let a = opendp_metrics__absolute_distance(ScalarType::Float64).unwrap();
    let b = opendp_metrics__absolute_distance(ScalarType::Float64).unwrap();
    assert!(a == b);
    assert!(opendp_metrics___metric_equal(&a, &b));
    assert_eq!(a.debug(), b.debug());
    assert_eq!(a.debug(), "AbsoluteDistance(f64)");
    let c = a.clone();
    assert!(c == b);
    assert_eq!(c.debug(), b.debug());
    let l = opendp_metrics__linf_distance(true, ScalarType::I32).unwrap();
    assert_eq!(opendp_metrics__metric_debug(&l), "LInfDistance(monotonic, T=i32)");
    assert_eq!(opendp_metrics__metric_debug(&l.clone()), "LInfDistance(monotonic, T=i32)");
    let m = opendp_metrics__linf_distance(false, ScalarType::I32).unwrap();
    assert!(l != m);
    assert_eq!(m.debug(), "LInfDistance(T=i32)");
}

#[test]
fn typed_metrics_compare_by_parameters() {
    assert!(LInfDistance::<i32>::new(true) == LInfDistance::<i32>::new(true).clone());
    assert!(LInfDistance::<i32>::new(true) != LInfDistance::<i32>::new(false));
    assert!(LpDistance::<i32>::l1() == LpDistance::<i32>::l1());
    assert!(LpDistance::<i32>::l1() != LpDistance::<i32>::l2());
    assert!(SymmetricDistance == SymmetricDistance.clone());
}

#[test]
fn user_distance_equality_and_debug() {
    let a = opendp_metrics__user_distance("my \"metric\"".to_string());
    let b = opendp_metrics__user_distance("my \"metric\"".to_string());
    let c = opendp_metrics__user_distance("other".to_string());
    assert!(a == b);
    assert!(a != c);
    assert_eq!(a.debug(), "UserDistance(\"my \\\"metric\\\"\")");
    assert_eq!(opendp_metrics__metric_type(&a), "ExtrinsicDistance");
    assert_eq!(opendp_metrics__metric_distance_type(&a), "ExtrinsicObject");
}

#[test]
fn descriptors_of_metrics() {
    let sym = opendp_metrics__symmetric_distance();
    assert_eq!(opendp_metrics__metric_type(&sym), "SymmetricDistance");
    assert_eq!(opendp_metrics__metric_distance_type(&sym), "u32");
    let l1 = opendp_metrics__l1_distance(ScalarType::I64).unwrap();
    assert_eq!(l1.debug(), "L1Distance(i64)");
    assert_eq!(opendp_metrics__metric_type(&l1), "L1Distance<i64>");
    let abs = opendp_metrics__absolute_distance(ScalarType::Float64).unwrap();
    let part = opendp_metrics__l01inf_distance(&abs).unwrap();
    assert_eq!(part.debug(), "L01InfDistance(AbsoluteDistance(f64))");
    assert_eq!(opendp_metrics__metric_type(&part), "L01InfDistance<AbsoluteDistance<f64>>");
    assert_eq!(opendp_metrics__metric_distance_type(&part), "(u32, f64, f64)");
    let part2 = opendp_metrics__l02inf_distance(&abs).unwrap();
    assert_eq!(part2.debug(), "L02InfDistance(AbsoluteDistance(f64))");
    let part_sym = opendp_metrics__l01inf_distance(&sym).unwrap();
    assert_eq!(part_sym.debug(), "L01InfDistance(SymmetricDistance())");
    assert_eq!(opendp_metrics__metric_distance_type(&part_sym), "(u32, u32, u32)");
}

#[test]
fn constructors_reject_unsupported_types() {
    assert_eq!(
        opendp_metrics__absolute_distance(ScalarType::Bool).err().unwrap().variant,
        ErrorVariant::FFI
    );
    assert!(opendp_metrics__linf_distance(false, ScalarType::I8).is_err());
    assert!(opendp_metrics__linf_distance(false, ScalarType::Usize).is_ok());
    assert!(opendp_metrics__l02inf_distance(&opendp_metrics__symmetric_distance()).is_err());
    assert!(opendp_metrics__l01inf_distance(&opendp_metrics__change_one_distance()).is_err());
    assert!(opendp_metrics__l01inf_distance(&AnyMetric::Absolute(ScalarType::Bool)).is_err());
    assert!(opendp_metrics__l02inf_distance(&AnyMetric::Absolute(ScalarType::String)).is_err());
    assert!(opendp_metrics__l02inf_distance(&AnyMetric::Absolute(ScalarType::U8)).is_ok());
}

#[test]
fn typed_metric_checks_distance_type() {
    let abs = opendp_metrics__absolute_distance(ScalarType::I32).unwrap();
    let typed = TypedMetric::<i32>::new(abs).unwrap();
    assert_eq!(typed.debug(), "AbsoluteDistance(i32)");
    assert!(typed.clone() == typed);
    let err = TypedMetric::<i32>::new(AnyMetric::Symmetric).err().unwrap();
    assert_eq!(err.variant, ErrorVariant::FFI);
    assert_eq!(err.message, "unexpected distance type in metric. Expected i32, got u32");
    assert!(TypedMetric::<u32>::new(AnyMetric::Hamming).is_ok());
}

#[test]
fn generic_names_skip_own_name() {
    let vars = vec!["T".to_string(), "M".to_string(), "T".to_string(), "Q".to_string()];
    assert_eq!(generic_names(&Some("T".to_string()), &vars), vec!["M".to_string(), "Q".to_string()]);
    assert_eq!(generic_names(&None, &vars), vars);
    assert!(generic_names(&Some("X".to_string()), &vec![]).is_empty());
}

#[test]
fn checked_arithmetic_fails_loudly() {
    assert_eq!(7i32.inf_add(&8).unwrap(), 15);
    assert_eq!(i32::MAX.inf_add(&1).err().unwrap().variant, ErrorVariant::Overflow);
    assert_eq!(5u32.inf_sub(&7).err().unwrap().variant, ErrorVariant::Overflow);
    assert_eq!((-5i64).inf_sub(&7).unwrap(), -12);
    assert_eq!(6u64.inf_mul(&7).unwrap(), 42);
    assert_eq!(u64::MAX.inf_mul(&2).err().unwrap().variant, ErrorVariant::Overflow);
    assert_eq!(i32::MAX.sat_add(&1), i32::MAX);
    assert_eq!(i64::MIN.sat_add(&-1), i64::MIN);
    assert_eq!(3u32.sat_add(&4), 7);
}

#[test]
fn ratio_relation_rounds_up() {
    let r = Relation::Ratio(1, 3);
    assert_eq!(r.map_bound(1).unwrap(), 1);
    assert_eq!(r.map_bound(3).unwrap(), 1);
    assert_eq!(r.map_bound(4).unwrap(), 2);
    assert!(r.eval(4, 2).unwrap());
    assert!(!r.eval(4, 1).unwrap());
    assert_eq!(Relation::Ratio(1, 0).map_bound(1).err().unwrap().variant, ErrorVariant::FailedRelation);
    let chained = Relation::Chain(Box::new(Relation::Linear(u64::MAX)), Box::new(Relation::Ratio(1, 0)));
    assert_eq!(chained.map_bound(2).err().unwrap().variant, ErrorVariant::Overflow);
    assert_eq!(chained.eval(1, 5).err().unwrap().variant, ErrorVariant::FailedRelation);
    let r = Relation::Ratio(u64::MAX, 2);
    assert_eq!(r.map_bound(2).unwrap(), u64::MAX);
    assert!(r.map_bound(3).is_err());
    let chain = Relation::Chain(Box::new(Relation::Linear(3)), Box::new(Relation::Ratio(1, 2)));
    assert_eq!(chain.map_bound(3).unwrap(), 5);
}

#[test]
fn default_metrics() {
    assert!(!LInfDistance::<i64>::default().monotonic);
    assert_eq!(SymmetricDistance::default(), SymmetricDistance);
}

#[test]
fn typed_metrics_erase_with_their_parameters() {
    let a = LInfDistance::<i64>::new(true).erase();
    let b = LInfDistance::<i64>::new(true).clone().erase();
    assert!(a == b);
    assert_eq!(a.debug(), "LInfDistance(monotonic, T=i64)");
    assert_eq!(b.debug(), a.debug());
    assert_eq!(LpDistance::<u32>::l2().erase().debug(), "L2Distance(u32)");
    let part = L0PInfDistance::new(NormOrder::L2, AbsoluteDistance::<i32>::new()).erase();
    assert_eq!(opendp_metrics__metric_type(&part), "L02InfDistance<AbsoluteDistance<i32>>");
    assert_eq!(SymmetricDistance.erase(), opendp_metrics__symmetric_distance());
    let user = ExtrinsicDistance { descriptor: "edits".to_string() }.erase();
    assert_eq!(user.debug(), "UserDistance(\"edits\")");
}

#[test]
fn clones_keep_equality_and_text() {
    let l = LInfDistance::<u32>::new(true);
    assert!(l.clone() == l);
    assert_eq!(format!("{:?}", l.clone()), format!("{:?}", l));
    let p = LpDistance::<i64>::l2();
    assert!(p.clone() == p);
    let typed = TypedMetric::<u64>::new(opendp_metrics__linf_distance(false, ScalarType::U64).unwrap()).unwrap();
    let copy = typed.clone();
    assert!(copy == typed);
    assert_eq!(copy.debug(), typed.debug());
    assert_eq!(copy.debug(), "LInfDistance(T=u64)");
}

#[test]
fn extrinsic_distances_compare_by_descriptor() {
    let a = ExtrinsicDistance { descriptor: "edits".to_string() };
    let b = ExtrinsicDistance { descriptor: "edits".to_string() };
    let c = ExtrinsicDistance { descriptor: "swaps".to_string() };
    assert!(a == b);
    assert!(a != c);
}
