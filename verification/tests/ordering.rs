use ct_ratio::{Ratio, RatioError, RationalCmp, RationalDiv, Reducible, StaticRatio};

fn outcomes(n1: i128, d1: i128, n2: i128, d2: i128) -> [bool; 6] {
    let a = Ratio::new(n1, d1).unwrap();
    let b = Ratio::new(n2, d2).unwrap();
    let c = RationalCmp::new(a, b).unwrap();
    [
        c.equal(),
        c.not_equal(),
        c.lesser(),
        c.greater(),
        c.lesser_or_equal(),
        c.greater_or_equal(),
    ]
}

#[test]
fn minus_one_written_two_ways() {
    let a = Ratio::new(1, -1).unwrap();
    let b = Ratio::new(-1, 1).unwrap();
    let c = Ratio::new(2, -2).unwrap();
    let zero = Ratio::new(0, 1).unwrap();
    assert!(RationalCmp::new(a, b).unwrap().equal());
    assert!(RationalCmp::new(b, c).unwrap().equal());
    assert!(RationalCmp::new(a, c).unwrap().equal());
    assert!(RationalCmp::new(a, zero).unwrap().lesser());
    assert!(RationalCmp::new(b, zero).unwrap().lesser());
    assert!(RationalCmp::new(c, zero).unwrap().lesser());
}

#[test]
fn six_predicates_of_a_lesser_operand() {
    assert_eq!(outcomes(1, 3, 1, 2), [false, true, true, false, true, false]);
    assert_eq!(outcomes(-1, 2, 1, 3), [false, true, true, false, true, false]);
    assert_eq!(outcomes(1, -2, -1, 3), [false, true, true, false, true, false]);
}

#[test]
fn six_predicates_of_equal_operands() {
    assert_eq!(outcomes(1, 2, 2, 4), [true, false, false, false, true, true]);
    assert_eq!(outcomes(-1, -2, 2, 4), [true, false, false, false, true, true]);
    assert_eq!(outcomes(1, -2, -3, 6), [true, false, false, false, true, true]);
    assert_eq!(outcomes(0, 5, 0, -9), [true, false, false, false, true, true]);
}

#[test]
fn six_predicates_of_a_greater_operand() {
    assert_eq!(outcomes(1, 2, 1, 3), [false, true, false, true, false, true]);
    assert_eq!(outcomes(1, 3, -1, 2), [false, true, false, true, false, true]);
    assert_eq!(outcomes(-1, 3, 1, -2), [false, true, false, true, false, true]);
}

#[test]
fn exactly_one_of_lesser_equal_greater() {
    let pairs: [(i128, i128); 7] = [(0, 1), (1, 2), (-1, 2), (2, -4), (3, 7), (-3, -7), (5, 1)];
    for (n1, d1) in pairs {
        for (n2, d2) in pairs {
            let a = Ratio::new(n1, d1).unwrap();
            let b = Ratio::new(n2, d2).unwrap();
            let forth = RationalCmp::new(a, b).unwrap();
            let back = RationalCmp::new(b, a).unwrap();
            let count = [forth.lesser(), forth.equal(), forth.greater()]
                .iter()
                .filter(|held| **held)
                .count();
            assert_eq!(count, 1);
            assert_eq!(forth.greater(), back.lesser());
            assert_eq!(forth.equal(), back.equal());
        }
    }
}

#[test]
fn reduced_form_equals_what_it_came_from() {
    let pairs: [(i128, i128); 8] =
        [(5, 10), (-12, 18), (70, -154), (-99, -9999), (0, -6), (7, 1), (1024, 4096), (-1, 3)];
    for (n, d) in pairs {
        let given = Ratio::new(n, d).unwrap();
        let reduced = given.reduced();
        assert!(reduced.is_irreducible());
        assert_eq!(reduced.gcd_value(), 1);
        assert!(reduced.denominator() > 0);
        assert!(RationalCmp::new(reduced, given).unwrap().equal());
        assert!(RationalCmp::new(given, reduced).unwrap().equal());
    }
}

#[test]
fn comparison_takes_denominators_of_either_sign() {
    let a = Ratio::new(1, 2).unwrap();
    let b = Ratio::new(-3, 4).unwrap();
    let q = RationalDiv::new(a, b).unwrap();
    assert_eq!(q.denominator(), -6);
    let same = Ratio::new(-2, 3).unwrap();
    let zero = Ratio::new(0, 1).unwrap();
    let minus_one = Ratio::new(-1, 1).unwrap();
    assert!(RationalCmp::new(q, same).unwrap().equal());
    assert!(RationalCmp::new(same, q).unwrap().equal());
    assert!(RationalCmp::new(q, zero).unwrap().lesser());
    assert!(RationalCmp::new(zero, q).unwrap().greater());
    assert!(RationalCmp::new(q, minus_one).unwrap().greater());
    assert!(RationalCmp::new(q, q).unwrap().equal());
    assert!(!RationalCmp::new(q, q).unwrap().lesser());
}

#[test]
fn comparison_overflow_is_reported() {
    let big = Ratio::new(i128::MAX, 1).unwrap();
    let half = Ratio::new(1, 2).unwrap();
    assert_eq!(RationalCmp::new(big, half).err(), Some(RatioError::ArithmeticOverflow));
    assert_eq!(RationalCmp::new(half, big).err(), Some(RatioError::ArithmeticOverflow));
}

#[test]
fn comparison_overflow_in_the_sign_step_is_reported() {
    let low = Ratio::new(i128::MIN, 1).unwrap();
    let minus_one = Ratio::new(-1, 1).unwrap();
    let one = Ratio::new(1, 1).unwrap();
    let q = RationalDiv::new(low, minus_one).unwrap();
    assert_eq!(RationalCmp::new(q, one).err(), Some(RatioError::ArithmeticOverflow));
    assert_eq!(RationalCmp::new(one, q).err(), Some(RatioError::ArithmeticOverflow));
}

#[test]
fn comparison_at_the_ends_of_the_range() {
    let low = Ratio::new(i128::MIN, 1).unwrap();
    let high = Ratio::new(i128::MAX, 1).unwrap();
    let c = RationalCmp::new(low, high).unwrap();
    assert!(c.lesser() && c.not_equal() && c.lesser_or_equal());
    assert!(!c.greater() && !c.greater_or_equal() && !c.equal());
}

#[test]
fn comparator_of_copied_operands_is_copied() {
    let a = Ratio::new(1, 2).unwrap();
    let b = Ratio::new(2, 3).unwrap();
    let c = RationalCmp::new(a, b).unwrap();
    let d = c;
    let e = c.clone();
    assert_eq!(c.lesser(), d.lesser());
    assert_eq!(c.equal(), e.equal());
}
