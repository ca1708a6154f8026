use ct_ratio::gcd;

#[test]
fn gcd_of_positive_operands() {
    assert_eq!(gcd(12, 18), 6);
    assert_eq!(gcd(18, 12), 6);
    assert_eq!(gcd(17, 5), 1);
    assert_eq!(gcd(5, 10), 5);
    assert_eq!(gcd(70, 154), 14);
    assert_eq!(gcd(99, 9999), 99);
    assert_eq!(gcd(1, 1), 1);
}

#[test]
fn gcd_ignores_signs() {
    assert_eq!(gcd(-12, 18), 6);
    assert_eq!(gcd(12, -18), 6);
    assert_eq!(gcd(-12, -18), 6);
    assert_eq!(gcd(-99, -9999), 99);
}

#[test]
fn gcd_with_zero_is_absolute_value() {
    assert_eq!(gcd(0, 7), 7);
    assert_eq!(gcd(7, 0), 7);
    assert_eq!(gcd(0, -7), 7);
    assert_eq!(gcd(-7, 0), 7);
    assert_eq!(gcd(0, 0), 0);
}

#[test]
fn gcd_is_never_negative() {
    let operands: [i128; 7] = [-30, -7, -1, 0, 1, 12, 45];
    for x in operands {
        for y in operands {
            assert!(gcd(x, y) >= 0);
        }
    }
}

#[test]
fn gcd_divides_both_operands() {
    let operands: [i128; 8] = [-360, -84, -13, 1, 6, 35, 210, 1024];
    for x in operands {
        for y in operands {
            let g = gcd(x, y);
            assert!(g > 0);
            assert_eq!(x % g, 0);
            assert_eq!(y % g, 0);
            assert_eq!(gcd(x / g, y / g), 1);
        }
    }
}

#[test]
fn gcd_at_the_ends_of_the_range() {
    assert_eq!(gcd(i128::MAX, i128::MAX), i128::MAX);
    assert_eq!(gcd(i128::MAX, 1), 1);
    assert_eq!(gcd(i128::MIN, 1), 1);
    assert_eq!(gcd(i128::MIN, 6), 2);
    assert_eq!(gcd(6, i128::MIN), 2);
    assert_eq!(gcd(i128::MIN, -64), 64);
    assert_eq!(gcd(i128::MIN, i128::MAX), 1);
    assert_eq!(gcd(i128::MIN + 1, 0), i128::MAX);
}
