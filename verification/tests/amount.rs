use rust_decimal::Decimal;
use txh::amount::Amount;

const MAX: i128 = 79_228_162_514_264_337_593_543_950_335;

fn amount(mantissa: i128, scale: u32) -> Amount {
    Amount::new(mantissa, scale).unwrap()
}

fn parts(a: Option<Amount>) -> Option<(i128, u32)> {
    a.map(|a| (a.mantissa(), a.scale()))
}

#[test]
fn new_takes_96_bits_and_28_places() {
    assert!(Amount::new(MAX, 28).is_some());
    assert!(Amount::new(-MAX, 0).is_some());
    assert!(Amount::new(MAX + 1, 0).is_none());
    assert!(Amount::new(-MAX - 1, 0).is_none());
    assert!(Amount::new(0, 29).is_none());
    assert!(Amount::new(i128::MIN, 0).is_none());
    let a = amount(-12345, 3);
    assert_eq!((a.mantissa(), a.scale()), (-12345, 3));
    let zero = Amount::zero();
    assert_eq!((zero.mantissa(), zero.scale()), (0, 0));
}

#[test]
fn sum_is_taken_at_the_larger_scale() {
    assert_eq!(parts(amount(15, 1).checked_add(amount(225, 2))), Some((375, 2)));
    assert_eq!(parts(amount(225, 2).checked_add(amount(15, 1))), Some((375, 2)));
    assert_eq!(parts(amount(17, 0).checked_add(amount(9, 0))), Some((26, 0)));
    assert_eq!(parts(amount(-17, 0).checked_add(amount(9, 3))), Some((-16991, 3)));
    assert_eq!(parts(amount(5, 1).checked_add(amount(-5, 1))), Some((0, 1)));
    assert_eq!(parts(amount(1, 0).checked_add(amount(1, 28))), Some((10_000_000_000_000_000_000_000_000_001, 28)));
}

#[test]
fn difference_is_taken_at_the_larger_scale() {
    assert_eq!(parts(amount(15, 1).checked_sub(amount(225, 2))), Some((-75, 2)));
    assert_eq!(parts(amount(100, 0).checked_sub(amount(99, 0))), Some((1, 0)));
    assert_eq!(parts(amount(100, 0).checked_sub(amount(-5, 1))), Some((1005, 1)));
    assert_eq!(parts(amount(7, 2).checked_sub(amount(7, 2))), Some((0, 2)));
    assert_eq!(parts(amount(MAX, 0).checked_sub(amount(MAX, 0))), Some((0, 0)));
}

#[test]
fn zero_leaves_the_other_side_as_it_is() {
    assert_eq!(parts(amount(0, 5).checked_add(amount(150, 2))), Some((150, 2)));
    assert_eq!(parts(amount(1, 0).checked_add(amount(0, 2))), Some((1, 0)));
    assert_eq!(parts(amount(0, 5).checked_add(amount(0, 2))), Some((0, 2)));
    assert_eq!(parts(amount(0, 5).checked_sub(amount(150, 2))), Some((-150, 2)));
    assert_eq!(parts(amount(1, 0).checked_sub(amount(0, 2))), Some((1, 0)));
    assert_eq!(parts(amount(0, 5).checked_sub(amount(0, 2))), Some((0, 2)));
    assert_eq!(parts(amount(0, 0).checked_add(amount(MAX, 28))), Some((MAX, 28)));
    assert_eq!(parts(amount(0, 0).checked_sub(amount(MAX, 28))), Some((-MAX, 28)));
}

#[test]
fn sums_beyond_96_bits_overflow_or_round() {
    assert_eq!(parts(amount(MAX, 0).checked_add(amount(1, 0))), None);
    assert_eq!(parts(amount(-MAX, 0).checked_sub(amount(1, 0))), None);
    assert_eq!(parts(amount(MAX, 0).checked_add(amount(MAX, 0))), None);
    // With decimal places to give up, the sum is rounded to fewer of them.
    let rounded = amount(MAX, 1).checked_add(amount(1, 1)).unwrap();
    assert_eq!((rounded.mantissa(), rounded.scale()), (7_922_816_251_426_433_759_354_395_034, 0));
    let expected = Decimal::from_i128_with_scale(MAX, 1)
        .checked_add(Decimal::from_i128_with_scale(1, 1))
        .unwrap();
    assert_eq!((rounded.mantissa(), rounded.scale()), (expected.mantissa(), expected.scale()));
}

#[test]
fn order_is_by_value() {
    assert!(amount(99, 0).less_than(amount(100, 0)));
    assert!(!amount(100, 0).less_than(amount(100, 0)));
    assert!(!amount(100, 0).less_than(amount(1000, 1)));
    assert!(amount(999, 1).less_than(amount(100, 0)));
    assert!(amount(-1, 0).less_than(amount(0, 5)));
    assert!(amount(-2, 0).less_than(amount(-15, 1)));
    assert!(amount(1, 28).less_than(amount(MAX, 0)));
    assert!(!amount(MAX, 0).less_than(amount(1, 28)));
    assert!(amount(-MAX, 0).less_than(amount(-1, 28)));
}

#[test]
fn equality_is_by_value() {
    assert_eq!(amount(1, 0), amount(10, 1));
    assert_eq!(amount(0, 0), amount(0, 7));
    assert_eq!(amount(-250, 2), amount(-25, 1));
    assert_ne!(amount(1, 0), amount(1, 1));
    assert_ne!(amount(1, 0), amount(-1, 0));
    assert_ne!(amount(MAX, 0), amount(MAX, 1));
}

/// A small generator of numbers, so that the same cases run every time.
struct Numbers(u64);

impl Numbers {
    fn next(&mut self) -> u64 {
        self.0 = self.0.wrapping_mul(6364136223846793005).wrapping_add(1442695040888963407);
        self.0 >> 11
    }

    fn amount(&mut self) -> (i128, u32) {
        let bits = self.next() % 97;
        let wide = ((self.next() as u128) << 64) | (self.next() as u128) << 11 | (self.next() as u128 & 0x7ff);
        let magnitude = if bits == 0 { 0 } else { (wide >> (128 - bits)) as i128 };
        let magnitude = if self.next() % 7 == 0 { magnitude.min(9) } else { magnitude };
        let mantissa = if self.next() % 2 == 0 { magnitude } else { -magnitude };
        (mantissa, (self.next() % 29) as u32)
    }
}

/// The mantissa at a larger scale, where that fits in 128 bits.
fn at_scale(mantissa: i128, from: u32, to: u32) -> Option<i128> {
    mantissa.checked_mul(10i128.checked_pow(to - from)?)
}

#[test]
fn sums_within_96_bits_are_exact() {
    let mut numbers = Numbers(42);
    let mut exact = 0;
    for _ in 0..200_000 {
        let (m1, s1) = numbers.amount();
        let (m2, s2) = numbers.amount();
        let scale = s1.max(s2);
        let (a, b) = (amount(m1, s1), amount(m2, s2));
        for subtract in [false, true] {
            let got = parts(if subtract { a.checked_sub(b) } else { a.checked_add(b) });
            let m2 = if subtract { -m2 } else { m2 };
            let expected = if m1 == 0 {
                Some((m2, s2))
            } else if m2 == 0 {
                Some((m1, s1))
            } else {
                match (at_scale(m1, s1, scale), at_scale(m2, s2, scale)) {
                    (Some(x), Some(y)) if x.checked_add(y).is_some_and(|sum| -MAX <= sum && sum <= MAX) => {
                        Some((x + y, scale))
                    }
                    _ => None,
                }
            };
            if let Some(expected) = expected {
                exact += 1;
                assert_eq!(got, Some(expected), "{m1}e-{s1} and {m2}e-{s2}");
            }
            if let Some((mantissa, scale)) = got {
                assert!(Amount::new(mantissa, scale).is_some());
            }
        }
    }
    assert!(exact > 50_000);
}

#[test]
fn order_and_equality_agree_with_the_values() {
    let mut numbers = Numbers(7);
    let mut compared = 0;
    for _ in 0..200_000 {
        let (m1, s1) = numbers.amount();
        let (m2, s2) = if numbers.next() % 5 == 0 {
            // The same value at another scale, where there is one.
            let s2 = (numbers.next() % 29) as u32;
            match at_scale(m1, s1.min(s2), s2.max(s1)) {
                Some(m) if s2 >= s1 && -MAX <= m && m <= MAX => (m, s2),
                _ => numbers.amount(),
            }
        } else {
            numbers.amount()
        };
        let scale = s1.max(s2);
        if let (Some(x), Some(y)) = (at_scale(m1, s1, scale), at_scale(m2, s2, scale)) {
            compared += 1;
            assert_eq!(amount(m1, s1).less_than(amount(m2, s2)), x < y, "{m1}e-{s1} < {m2}e-{s2}");
            assert_eq!(amount(m1, s1) == amount(m2, s2), x == y, "{m1}e-{s1} == {m2}e-{s2}");
        }
    }
    assert!(compared > 50_000);
}

#[test]
fn differences_that_nearly_cancel_are_exact() {
    let mut numbers = Numbers(99);
    let mut exact = 0;
    for places in 1..=28u32 {
        for scale in places..=28u32 {
            for _ in 0..40 {
                let (m2, _) = numbers.amount();
                let power = 10i128.pow(places);
                let m1 = m2 / power + (numbers.next() % 5) as i128 - 2;
                let aligned = m1 * power;
                let (a, b) = (amount(m1, scale - places), amount(m2, scale));
                let minus = if m1 == 0 {
                    (-m2, scale)
                } else if m2 == 0 {
                    (m1, scale - places)
                } else {
                    (aligned - m2, scale)
                };
                assert_eq!(parts(a.checked_sub(b)), Some(minus), "{m1}e-{} - {m2}e-{scale}", scale - places);
                let plus = if m1 == 0 {
                    (-m2, scale)
                } else if m2 == 0 {
                    (m1, scale - places)
                } else {
                    (aligned - m2, scale)
                };
                assert_eq!(parts(a.checked_add(amount(-m2, scale))), Some(plus));
                let swapped = if m2 == 0 {
                    (-m1, scale - places)
                } else if m1 == 0 {
                    (m2, scale)
                } else {
                    (m2 - aligned, scale)
                };
                assert_eq!(parts(b.checked_sub(a)), Some(swapped));
                exact += 1;
            }
        }
    }
    assert_eq!(exact, 406 * 40);
}

#[test]
fn sums_at_the_edge_of_96_bits() {
    // The largest sums that fit, and the smallest that do not, at every scale.
    for scale in 0..=28u32 {
        for split in [1i128, 2, 1 << 31, 1 << 32, 1 << 63, 1 << 64, (1 << 95) + 12345, MAX - 1] {
            let (m1, m2) = (MAX - split, split);
            assert_eq!(parts(amount(m1, scale).checked_add(amount(m2, scale))), Some((MAX, scale)));
            assert_eq!(parts(amount(-m1, scale).checked_sub(amount(m2, scale))), Some((-MAX, scale)));
            assert_eq!(parts(amount(m1, scale).checked_sub(amount(-m2, scale))), Some((MAX, scale)));
            let beyond = parts(amount(m1 + 1, scale).checked_add(amount(m2, scale)));
            if scale == 0 {
                assert_eq!(beyond, None);
            } else {
                // 2^96 at `scale` places, rounded to the even neighbour at one place less.
                assert_eq!(beyond, Some((7_922_816_251_426_433_759_354_395_034, scale - 1)));
            }
        }
    }
}
