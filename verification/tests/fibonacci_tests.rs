use solana_trading_bot_engine::amount::Amount;
use solana_trading_bot_engine::trading::fibonacci::FibonacciCalculator;

fn dec(num: i64, scale: u32) -> Amount {
    Amount::new(num, scale)
}

fn default_levels() -> Vec<Amount> {
    vec![dec(1618, 3), dec(2618, 3), dec(3618, 3)]
}

#[test]
fn targets_of_the_default_levels() {
    let t = FibonacciCalculator::targets(&dec(100000, 0), &default_levels()).unwrap();
    assert_eq!(t.len(), 3);
    assert_eq!(t[0].level, dec(1618, 3));
    assert_eq!(t[1].level, dec(2618, 3));
    assert_eq!(t[2].level, dec(3618, 3));
    assert_eq!(t[0].target_price, dec(161800, 0));
    assert_eq!(t[1].target_price, dec(261800, 0));
    assert_eq!(t[2].target_price, dec(361800, 0));
}

#[test]
fn targets_rise_strictly_for_a_positive_base() {
    let t = FibonacciCalculator::targets(&dec(12345, 2), &default_levels()).unwrap();
    assert_eq!(t[0].target_price, dec(19974210, 5));
    assert_eq!(t[1].target_price, dec(32319210, 5));
    assert_eq!(t[2].target_price, dec(44664210, 5));
    assert!(t[0].target_price.lt(&t[1].target_price));
    assert!(t[1].target_price.lt(&t[2].target_price));
}

#[test]
fn targets_are_the_same_on_every_call() {
    let base = dec(98765, 1);
    let first = FibonacciCalculator::targets(&base, &default_levels()).unwrap();
    let second = FibonacciCalculator::targets(&base, &default_levels()).unwrap();
    assert_eq!(first.len(), second.len());
    for i in 0..first.len() {
        assert_eq!(first[i].level, second[i].level);
        assert_eq!(first[i].target_price, second[i].target_price);
        assert_eq!(first[i].target_price.mantissa(), second[i].target_price.mantissa());
        assert_eq!(first[i].target_price.scale(), second[i].target_price.scale());
    }
}

#[test]
fn targets_of_a_zero_base_do_not_rise() {
    let t = FibonacciCalculator::targets(&dec(0, 0), &default_levels()).unwrap();
    assert_eq!(t.len(), 3);
    assert!(t[0].target_price.is_zero());
    assert!(t[1].target_price.is_zero());
    assert!(t[2].target_price.is_zero());
}

#[test]
fn targets_keep_the_order_of_the_levels() {
    let levels = vec![dec(3, 0), dec(2, 0)];
    let t = FibonacciCalculator::targets(&dec(10, 0), &levels).unwrap();
    assert_eq!(t[0].target_price, dec(30, 0));
    assert_eq!(t[1].target_price, dec(20, 0));
}

#[test]
fn no_levels_no_targets() {
    let t = FibonacciCalculator::targets(&dec(10, 0), &vec![]).unwrap();
    assert!(t.is_empty());
}

#[test]
fn no_targets_where_a_product_overflows() {
    let big = Amount::from_parts(79228162514264337593543950335, 0).unwrap();
    assert!(FibonacciCalculator::targets(&big, &default_levels()).is_none());
}
