use ct_ratio::{Ratio, RationalCmp};

#[test]
fn negative_less_than_zero() {
    let negative = Ratio::new(1, -1).unwrap();
    let negative2 = Ratio::new(-1, 1).unwrap();
    let zero = Ratio::new(0, 1).unwrap();
    let cmp = RationalCmp::new(negative, zero).unwrap();
    let cmp2 = RationalCmp::new(negative2, zero).unwrap();
    assert!(cmp.lesser());
    assert!(cmp2.lesser());
}

#[test]
fn negative_less_than_positive() {
    let n1 = Ratio::new(1, -1).unwrap();
    let n2 = Ratio::new(-1, 1).unwrap();
    let p1 = Ratio::new(1, 1).unwrap();
    let p2 = Ratio::new(-1, -1).unwrap();
    let c1 = RationalCmp::new(n1, p1).unwrap();
    let c2 = RationalCmp::new(n1, p2).unwrap();
    let c3 = RationalCmp::new(n2, p1).unwrap();
    let c4 = RationalCmp::new(n2, p2).unwrap();
    assert!(c1.lesser() && c2.lesser() && c3.lesser() && c4.lesser());
}

#[test]
fn positive_greater_than_zero() {
    let p1 = Ratio::new(1, 1).unwrap();
    let p2 = Ratio::new(-1, -1).unwrap();
    let zero = Ratio::new(0, -1).unwrap();
    let c1 = RationalCmp::new(p1, zero).unwrap();
    let c2 = RationalCmp::new(p2, zero).unwrap();
    let c3 = RationalCmp::new(p1, p2).unwrap();
    assert!(c1.greater() && c2.greater() && c3.equal());
}

#[test]
fn funny_cmp() {
    let half = Ratio::new(-1, -2).unwrap();
    let big = Ratio::new(2, 4).unwrap();
    let cmp = RationalCmp::new(half, big).unwrap();
    assert!(cmp.equal());
}
