use payment_settle_accounts::Money;
use rust_decimal::Decimal;

fn money(mantissa: i128, scale: u32) -> Money {
    Money::new(mantissa, scale).unwrap()
}

fn decimal(m: &Money) -> Decimal {
    Decimal::from_i128_with_scale(m.mantissa(), m.scale())
}

const MAX: i128 = 79_228_162_514_264_337_593_543_950_335;

#[test]
fn new_takes_what_a_decimal_can_hold() {
    assert!(Money::new(MAX, 0).is_some());
    assert!(Money::new(-MAX, 28).is_some());
    assert!(Money::new(MAX + 1, 0).is_none());
    assert!(Money::new(-MAX - 1, 0).is_none());
    assert!(Money::new(1, 29).is_none());
    let m = money(-12345, 3);
    assert_eq!(m.mantissa(), -12345);
    assert_eq!(m.scale(), 3);
    assert_eq!(decimal(&m).to_string(), "-12.345");
}

#[test]
fn zero_and_whole_amounts() {
    assert_eq!(Money::zero().mantissa(), 0);
    assert_eq!(Money::zero().scale(), 0);
    let twelve: Money = 12.into();
    assert_eq!(twelve.mantissa(), 12);
    assert_eq!(twelve.scale(), 0);
    assert_eq!(Money::from(-3).mantissa(), -3);
    assert_eq!(Money::from(i32::MIN).mantissa(), -2_147_483_648);
}

#[test]
fn equality_is_by_amount() {
    assert_eq!(money(150, 2), money(15, 1));
    assert_eq!(money(0, 5), Money::zero());
    assert_ne!(money(15, 1), money(15, 2));
    assert!(money(150, 2).same_as(&money(150, 2)));
    assert!(!money(150, 2).same_as(&money(15, 1)));
}

#[test]
fn order_is_by_amount() {
    assert!(money(15, 1).le(&money(2, 0)));
    assert!(!money(2, 0).le(&money(15, 1)));
    assert!(money(150, 2).le(&money(15, 1)));
    assert!(money(-1, 28).le(&Money::zero()));
    assert!(!Money::zero().le(&money(-1, 28)));
    // Scales so far apart that one amount cannot be written at the other's scale.
    assert!(money(1, 28).le(&money(MAX, 0)));
    assert!(!money(MAX, 0).le(&money(1, 28)));
}

#[test]
fn sign() {
    assert!(money(-1, 28).is_negative());
    assert!(!money(1, 28).is_negative());
    assert!(!money(0, 7).is_negative());
}

#[test]
fn checked_add_is_the_decimal_sum() {
    let sum = money(15, 1).checked_add(&money(2, 0)).unwrap();
    assert_eq!(sum.mantissa(), 35);
    assert_eq!(sum.scale(), 1);
    let sum = money(1, 0).checked_add(&money(2, 0)).unwrap();
    assert_eq!(sum.mantissa(), 3);
    let cases = [
        (money(1, 0), money(2, 0)),
        (money(125, 2), money(-3, 1)),
        (money(MAX, 0), money(-MAX, 0)),
        (money(MAX, 3), money(1, 28)),
        (money(0, 4), money(5, 0)),
        (money(999_999_999_999, 6), money(1, 6)),
    ];
    for (a, b) in cases {
        let expected = decimal(&a).checked_add(decimal(&b)).unwrap();
        let got = a.checked_add(&b).unwrap();
        assert_eq!(got.mantissa(), expected.mantissa());
        assert_eq!(got.scale(), expected.scale());
    }
}

#[test]
fn checked_add_overflows_to_none() {
    assert!(money(MAX, 0).checked_add(&money(1, 0)).is_none());
    assert!(money(-MAX, 0).checked_add(&money(-MAX, 0)).is_none());
}

#[test]
fn checked_sub_is_the_decimal_difference() {
    let difference = money(3, 0).checked_sub(&money(15, 1)).unwrap();
    assert_eq!(difference.mantissa(), 15);
    assert_eq!(difference.scale(), 1);
    let difference = money(1, 0).checked_sub(&money(2, 0)).unwrap();
    assert_eq!(difference.mantissa(), -1);
    assert!(money(-MAX, 0).checked_sub(&money(1, 0)).is_none());
    let cases = [
        (money(125, 2), money(3, 1)),
        (money(MAX, 0), money(MAX, 0)),
        (money(MAX, 3), money(1, 28)),
        (money(0, 4), money(5, 0)),
    ];
    for (a, b) in cases {
        let expected = decimal(&a).checked_sub(decimal(&b)).unwrap();
        let got = a.checked_sub(&b).unwrap();
        assert_eq!(got.mantissa(), expected.mantissa());
        assert_eq!(got.scale(), expected.scale());
    }
}

#[test]
fn adds_up_to_tells_exact_sums() {
    assert!(money(15, 1).adds_up_to(&money(2, 0), &money(35, 1)));
    assert!(money(15, 1).adds_up_to(&money(2, 0), &money(3500, 3)));
    assert!(money(0, 4).adds_up_to(&money(5, 0), &money(5, 0)));
    assert!(money(-7, 0).adds_up_to(&money(7, 0), &money(0, 2)));
    assert!(!money(15, 1).adds_up_to(&money(2, 0), &money(36, 1)));
    assert!(!money(15, 1).adds_up_to(&money(2, 0), &money(15, 1)));
    assert!(money(MAX - 1, 0).adds_up_to(&money(1, 0), &money(MAX, 0)));
}

// The largest amount and a tenth: the decimal sum comes back rounded to
// the largest amount, and is told from an exact one.
#[test]
fn a_rounded_sum_does_not_add_up() {
    let largest = money(MAX, 0);
    let tenth = money(1, 1);
    let sum = largest.checked_add(&tenth).unwrap();
    assert_eq!(sum.mantissa(), MAX);
    assert_eq!(sum.scale(), 0);
    assert!(!largest.adds_up_to(&tenth, &sum));
}

// Brought to the finest of the three scales, the sum has 30 digits and
// more: it does not count as exact, though it is.
#[test]
fn adds_up_to_wants_128_bits_at_the_finest_scale() {
    let large = money(MAX, 0);
    let fine_zero = money(0, 28);
    assert!(large.adds_up_to(&Money::zero(), &large));
    assert!(!large.adds_up_to(&fine_zero, &large));
    assert!(money(17, 0).adds_up_to(&fine_zero, &money(17, 0)));
}

#[test]
fn round_dp_rounds_half_to_even() {
    let rounded = money(123456, 5).round_dp(4);
    assert_eq!((rounded.mantissa(), rounded.scale()), (12346, 4));
    let rounded = money(123454, 5).round_dp(4);
    assert_eq!((rounded.mantissa(), rounded.scale()), (12345, 4));
    let rounded = money(100005, 5).round_dp(4);
    assert_eq!((rounded.mantissa(), rounded.scale()), (10000, 4));
    let rounded = money(100015, 5).round_dp(4);
    assert_eq!((rounded.mantissa(), rounded.scale()), (10002, 4));
    let rounded = money(100025, 5).round_dp(4);
    assert_eq!((rounded.mantissa(), rounded.scale()), (10002, 4));
    let rounded = money(-100015, 5).round_dp(4);
    assert_eq!((rounded.mantissa(), rounded.scale()), (-10002, 4));
    let rounded = money(1000050000001, 12).round_dp(4);
    assert_eq!((rounded.mantissa(), rounded.scale()), (10001, 4));
    let rounded = money(MAX, 28).round_dp(0);
    assert_eq!((rounded.mantissa(), rounded.scale()), (8, 0));
}

#[test]
fn round_dp_keeps_what_is_short_enough() {
    let kept = money(15, 1).round_dp(4);
    assert_eq!((kept.mantissa(), kept.scale()), (15, 1));
    let kept = money(-12345, 4).round_dp(4);
    assert_eq!((kept.mantissa(), kept.scale()), (-12345, 4));
    let kept = money(7, 0).round_dp(0);
    assert_eq!((kept.mantissa(), kept.scale()), (7, 0));
    let kept = money(123, 28).round_dp(40);
    assert_eq!((kept.mantissa(), kept.scale()), (123, 28));
    let zero = money(0, 6).round_dp(4);
    assert_eq!((zero.mantissa(), zero.scale()), (0, 4));
}

fn half_even(m: i128, d: i128) -> i128 {
    let n = m.abs();
    let q = n / d;
    let r = n % d;
    let v = if 2 * r > d || (2 * r == d && q % 2 == 1) {
        q + 1
    } else {
        q
    };
    if m < 0 {
        -v
    } else {
        v
    }
}

fn mantissas() -> Vec<i128> {
    let mut all = vec![0, 1, 2, 5, 9, 10, 15, 25, 49, 50, 51, 99, 149, 150, 151, 250, 350];
    let mut p: i128 = 1;
    for _ in 0..28 {
        p *= 10;
        for k in [-1, 0, 1] {
            all.push(p / 2 + k);
            all.push(p + p / 2 + k);
            all.push(2 * p + p / 2 + k);
            all.push(p + k);
            all.push(7 * p + 3 * (p / 10) + k);
        }
    }
    all.extend([MAX, MAX - 1, MAX - 5, MAX / 2, MAX / 2 + 1, MAX / 10, MAX / 10 + 5]);
    let negatives: Vec<i128> = all.iter().map(|m| -m).collect();
    all.extend(negatives);
    all.retain(|m| -MAX <= *m && *m <= MAX);
    all
}

#[test]
fn round_dp_is_division_rounded_half_to_even() {
    let mut seen = 0;
    for m in mantissas() {
        for scale in 0..=28u32 {
            for dp in [0u32, 1, 2, 3, 4, 5, 9, 10, 18, 19, 27, 28, 29, 100] {
                let rounded = money(m, scale).round_dp(dp);
                if scale <= dp {
                    assert_eq!((rounded.mantissa(), rounded.scale()), (m, scale));
                } else {
                    let d = 10i128.pow(scale - dp);
                    assert_eq!(
                        (rounded.mantissa(), rounded.scale()),
                        (half_even(m, d), dp),
                        "{m} / 10^{scale} to {dp} digits"
                    );
                    seen += 1;
                }
            }
        }
    }
    assert!(seen > 10_000);
}

#[test]
fn le_is_the_order_of_the_amounts() {
    let small: Vec<i128> = vec![
        0, 1, 2, 9, 10, 11, 99, 100, 101, 12345, 999_999_999, -1, -2, -10, -99, -100, -12345,
    ];
    let mut seen = 0;
    for a in &small {
        for sa in [0u32, 1, 2, 3, 9, 14, 27, 28] {
            for b in &small {
                for sb in [0u32, 1, 2, 4, 9, 15, 27, 28] {
                    let left = a * 10i128.pow(28 - sa);
                    let right = b * 10i128.pow(28 - sb);
                    assert_eq!(
                        money(*a, sa).le(&money(*b, sb)),
                        left <= right,
                        "{a} / 10^{sa} <= {b} / 10^{sb}"
                    );
                    assert_eq!(money(*a, sa) == money(*b, sb), left == right);
                    seen += 1;
                }
            }
        }
    }
    assert!(seen > 10_000);
    // Large mantissas, at one scale.
    for scale in [0u32, 5, 28] {
        for (a, b) in [(MAX, MAX - 1), (MAX - 1, MAX), (MAX, MAX), (-MAX, MAX), (MAX, -MAX)] {
            assert_eq!(money(a, scale).le(&money(b, scale)), a <= b);
        }
    }
}

// Where the sum at the finer of the two scales has no more than 96 bits,
// the decimal sum adds up; so does the difference.
#[test]
fn sums_that_fit_add_up() {
    let values: Vec<i128> = vec![
        0, 1, 5, 10, 99, 12345, 1_000_000_007, 999_999_999_999_999_999, MAX / 1000, -1, -7, -12345,
        -999_999_999_999_999_999,
    ];
    let mut seen = 0;
    for a in &values {
        for sa in [0u32, 1, 2, 4, 8, 12] {
            for b in &values {
                for sb in [0u32, 1, 3, 4, 9, 12] {
                    let (x, y) = (money(*a, sa), money(*b, sb));
                    let t = sa.max(sb);
                    let exact = a * 10i128.pow(t - sa) + b * 10i128.pow(t - sb);
                    if exact.abs() > MAX || (a * 10i128.pow(t - sa)).abs() > MAX {
                        continue;
                    }
                    let sum = x.checked_add(&y).unwrap();
                    assert!(x.adds_up_to(&y, &sum), "{a} / 10^{sa} + {b} / 10^{sb}");
                    assert_eq!(sum, money(exact, t));
                    let difference = sum.checked_sub(&y).unwrap();
                    assert!(difference.adds_up_to(&y, &sum));
                    assert_eq!(difference, x);
                    seen += 1;
                }
            }
        }
    }
    assert!(seen > 5_000);
}
