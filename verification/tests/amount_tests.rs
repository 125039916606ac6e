use solana_trading_bot_engine::amount::Amount;

fn dec(num: i64, scale: u32) -> Amount {
    Amount::new(num, scale)
}

#[test]
fn new_keeps_mantissa_and_scale() {
    let a = dec(3141, 3);
    assert_eq!(a.mantissa(), 3141);
    assert_eq!(a.scale(), 3);
}

#[test]
fn equality_goes_by_the_number_not_the_scale() {
    assert_eq!(dec(10, 1), dec(1, 0));
    assert_eq!(dec(161800, 0), dec(161800000, 3));
    assert_ne!(dec(10, 1), dec(11, 1));
    assert!(dec(10, 1).same_value(&dec(100, 2)));
    assert!(!dec(10, 1).same_value(&dec(101, 2)));
}

#[test]
fn ordering_goes_by_the_number() {
    let low = dec(97000, 0);
    let high = dec(9800000, 2);
    assert!(low.lt(&high));
    assert!(low.le(&high));
    assert!(!low.gt(&high));
    assert!(!low.ge(&high));
    assert!(high.gt(&low));
    assert!(high.ge(&low));
    assert!(low.le(&dec(970000, 1)));
    assert!(low.ge(&dec(970000, 1)));
    assert!(!low.lt(&dec(970000, 1)));
    assert!(dec(-5, 0).lt(&dec(1, 3)));
}

#[test]
fn max_and_min_pick_one_of_the_two() {
    let a = dec(25, 1);
    let b = dec(3, 0);
    assert_eq!(a.max(b), b);
    assert_eq!(a.min(b), a);
    assert_eq!(b.max(a), b);
    assert_eq!(b.min(a), a);
}

#[test]
fn signs() {
    assert!(dec(1, 5).is_positive());
    assert!(!dec(0, 5).is_positive());
    assert!(dec(0, 5).is_zero());
    assert!(dec(-1, 5).is_negative());
    assert!(Amount::zero().is_zero());
    assert_eq!(Amount::one(), dec(1000, 3));
    assert_eq!(Amount::from_u64(100_000), dec(100_000, 0));
    assert_eq!(Amount::from_i64(-7), dec(-70, 1));
}

#[test]
fn product_is_exact_within_range() {
    let p = dec(100000, 0).checked_mul(&dec(1618, 3));
    assert_eq!(p, Some(dec(161800, 0)));
    let q = dec(100000, 0).checked_mul(&dec(9700, 4));
    assert_eq!(q, Some(dec(97000, 0)));
    let r = dec(-25, 1).checked_mul(&dec(4, 0));
    assert_eq!(r, Some(dec(-10, 0)));
}

#[test]
fn product_differs_from_its_arguments() {
    let a = dec(7, 0);
    let b = dec(3, 0);
    let p = a.checked_mul(&b).unwrap();
    assert_ne!(p, a);
    assert_ne!(p, b);
    assert_eq!(p, dec(21, 0));
}

#[test]
fn product_overflows_to_none() {
    let big = Amount::from_parts(79228162514264337593543950335, 0).unwrap();
    assert_eq!(big.checked_mul(&dec(10, 0)), None);
}

#[test]
fn difference_and_sum() {
    assert_eq!(dec(100000, 0).checked_sub(&dec(60000, 0)), Some(dec(40000, 0)));
    assert_eq!(dec(15, 1).checked_sub(&dec(25, 2)), Some(dec(125, 2)));
    assert_eq!(dec(15, 1).checked_add(&dec(25, 2)), Some(dec(175, 2)));
    assert_eq!(dec(1, 0).checked_sub(&dec(3, 0)), Some(dec(-2, 0)));
}

#[test]
fn sum_overflows_to_none() {
    let big = Amount::from_parts(79228162514264337593543950335, 0).unwrap();
    assert_eq!(big.checked_add(&dec(1, 0)), None);
    let small = Amount::from_parts(-79228162514264337593543950335, 0).unwrap();
    assert_eq!(small.checked_sub(&dec(1, 0)), None);
}

#[test]
fn quotient() {
    assert_eq!(dec(10, 0).checked_div(&dec(4, 0)), Some(dec(25, 1)));
    assert_eq!(dec(200, 0).checked_div(&dec(4, 1)), Some(dec(500, 0)));
    assert_eq!(dec(10, 0).checked_div(&dec(0, 0)), None);
}

#[test]
fn text_is_the_decimal_notation() {
    assert_eq!(dec(3141, 3).to_text(), "3.141");
    assert_eq!(dec(100000, 0).to_text(), "100000");
    assert_eq!(dec(-5, 1).to_text(), "-0.5");
}

#[test]
fn from_parts_takes_what_is_in_range() {
    assert!(Amount::from_parts(0, 28).is_some());
    assert!(Amount::from_parts(0, 29).is_none());
    assert!(Amount::from_parts(79228162514264337593543950335, 0).is_some());
    assert!(Amount::from_parts(79228162514264337593543950336, 0).is_none());
    assert!(Amount::from_parts(-79228162514264337593543950335, 28).is_some());
    assert!(Amount::from_parts(-79228162514264337593543950336, 0).is_none());
    let a = Amount::from_parts(12345, 2).unwrap();
    assert_eq!(a.mantissa(), 12345);
    assert_eq!(a.scale(), 2);
}
