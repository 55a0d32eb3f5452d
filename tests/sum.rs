use opendp::error::ErrorVariant;
use opendp::sum::{make_bounded_sum, make_sized_bounded_sum};

#[test]
fn test_make_bounded_sum_l1() {
    let transformation = make_bounded_sum::<i32>((0, 10)).unwrap();
    let arg = vec![1, 2, 3, 4, 5];
    let ret = transformation.invoke(&arg).unwrap();
    let expected = 15;
    assert_eq!(ret, expected);
}

#[test]
fn test_make_bounded_sum_l2() {
    let transformation = make_bounded_sum::<i32>((0, 10)).unwrap();
    let arg = vec![1, 2, 3, 4, 5];
    let ret = transformation.invoke(&arg).unwrap();
    let expected = 15;
    assert_eq!(ret, expected);
}

#[test]
fn mod_test_make_bounded_sum_n() {
    let transformation = make_sized_bounded_sum::<i32>(5, (0, 10)).unwrap();
    let arg = vec![1, 2, 3, 4, 5];
    let ret = transformation.invoke(&arg).unwrap();
    let expected = 15;
    assert_eq!(ret, expected);
}

#[test]
fn bounded_sum_mixed_signs() {
    let transformation = make_bounded_sum::<i64>((-10, 10)).unwrap();
    let ret = transformation.invoke(&vec![-4, 7, -3, 10]).unwrap();
    assert_eq!(ret, 10);
}

#[test]
fn bounded_sum_empty_is_zero() {
    let transformation = make_bounded_sum::<u32>((0, 10)).unwrap();
    assert_eq!(transformation.invoke(&vec![]).unwrap(), 0);
}

#[test]
fn bounded_sum_saturates_positive_part_only() {
    let transformation = make_bounded_sum::<i32>((i32::MIN, i32::MAX)).unwrap();
    let ret = transformation.invoke(&vec![i32::MAX, i32::MAX, -5]).unwrap();
    assert_eq!(ret, i32::MAX - 5);
    let ret = transformation.invoke(&vec![i32::MIN, -1, 3]).unwrap();
    assert_eq!(ret, i32::MIN + 3);
}

#[test]
fn bounded_sum_rejects_inverted_bounds() {
    let err = make_bounded_sum::<i32>((10, 0)).err().unwrap();
    assert_eq!(err.variant, ErrorVariant::MakeDomain);
    let err = make_sized_bounded_sum::<i32>(3, (1, -1)).err().unwrap();
    assert_eq!(err.variant, ErrorVariant::MakeDomain);
}

#[test]
fn bounded_sum_stability_uses_larger_magnitude() {
    let transformation = make_bounded_sum::<i32>((-20, 10)).unwrap();
    assert!(transformation.check(1, 20).unwrap());
    assert!(!transformation.check(1, 19).unwrap());
    assert!(transformation.check(3, 60).unwrap());
    assert!(!transformation.check(3, 59).unwrap());
}

#[test]
fn sized_bounded_sum_stability_halves_distance() {
    let transformation = make_sized_bounded_sum::<i32>(5, (-2, 10)).unwrap();
    assert!(transformation.check(2, 12).unwrap());
    assert!(!transformation.check(2, 11).unwrap());
    assert!(transformation.check(3, 12).unwrap());
    assert!(transformation.check(1, 0).unwrap());
    assert_eq!(transformation.input_domain().size, Some(5));
}

#[test]
fn stability_overflow_is_an_error() {
    let transformation = make_bounded_sum::<u64>((0, u64::MAX)).unwrap();
    assert!(transformation.check(1, u64::MAX).unwrap());
    let err = transformation.check(2, u64::MAX).err().unwrap();
    assert_eq!(err.variant, ErrorVariant::Overflow);
}

#[test]
fn relation_is_monotonic_on_samples() {
    let transformation = make_bounded_sum::<i32>((0, 7)).unwrap();
    assert!(transformation.check(4, 28).unwrap());
    for d_in in 0..=4u64 {
        for d_out in 28..40u64 {
            assert!(transformation.check(d_in, d_out).unwrap());
        }
    }
}
