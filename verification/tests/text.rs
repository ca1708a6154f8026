use ct_ratio::{Ratio, RationalSum, StaticArithmetic};

#[test]
fn text_of_a_ratio() {
    assert_eq!(Ratio::new(7, 6).unwrap().to_string(), "7 / 6");
    assert_eq!(Ratio::new(10, 20).unwrap().to_string(), "10 / 20");
    assert_eq!(Ratio::new(0, 1).unwrap().to_string(), "0 / 1");
    assert_eq!(Ratio::new(1234567890, 987654321).unwrap().to_string(), "1234567890 / 987654321");
}

#[test]
fn text_is_of_the_canonical_form() {
    assert_eq!(Ratio::new(1, -2).unwrap().to_string(), "-1 / 2");
    assert_eq!(Ratio::new(-1, -2).unwrap().to_string(), "1 / 2");
    assert_eq!(Ratio::new(-1, 2).unwrap().to_string(), "-1 / 2");
    assert_eq!(Ratio::new(0, -5).unwrap().to_string(), "0 / 5");
}

#[test]
fn text_at_the_ends_of_the_range() {
    assert_eq!(
        Ratio::new(i128::MIN, 1).unwrap().to_string(),
        "-170141183460469231731687303715884105728 / 1"
    );
    assert_eq!(
        Ratio::new(1, i128::MAX).unwrap().to_string(),
        "1 / 170141183460469231731687303715884105727"
    );
    assert_eq!(
        Ratio::new(i128::MAX, -i128::MAX).unwrap().to_string(),
        format!("{} / {}", -i128::MAX, i128::MAX)
    );
}

#[test]
fn text_agrees_with_decimal_formatting() {
    let values: [i128; 9] = [0, 1, 9, 10, 11, 99, 100, 101, 1000000007];
    for n in values {
        for d in [1, 10, 109] {
            assert_eq!(Ratio::new(n, d).unwrap().to_string(), format!("{} / {}", n, d));
            assert_eq!(Ratio::new(-n, d).unwrap().to_string(), format!("{} / {}", -n, d));
        }
    }
}

#[test]
fn text_of_a_sum() {
    let a = Ratio::new(1, 2).unwrap();
    let b = Ratio::new(2, 3).unwrap();
    let c = RationalSum::new(a, b).unwrap().op_result().unwrap();
    assert_eq!(c.to_string(), "7 / 6");
}
