use ct_ratio::{Ratio, Reducible, StaticRatio};

#[test]
fn reduction() {
    let original = Ratio::new(5, 10).unwrap();
    let reduced = original.reduced();
    println!(
        "Reduced {}/{} to {}/{}",
        original.numerator(),
        original.denominator(),
        reduced.numerator(),
        reduced.denominator()
    );
    assert!(!original.is_irreducible());
    assert!(reduced.is_irreducible());
    assert_eq!(reduced.numerator(), 1);
    assert_eq!(reduced.denominator(), 2);
}

#[test]
fn part_negative() {
    let original = Ratio::new(-12, 18).unwrap();
    let reduced = original.reduced();
    println!(
        "Reduced {}/{} to {}/{}",
        original.numerator(),
        original.denominator(),
        reduced.numerator(),
        reduced.denominator()
    );
    assert!(!original.is_irreducible());
    assert!(reduced.is_irreducible());
    assert_eq!(reduced.numerator(), -2);
    assert_eq!(reduced.denominator(), 3);
}

#[test]
fn part_negative2() {
    let original = Ratio::new(70, -154).unwrap();
    let reduced = original.reduced();
    println!(
        "Reduced {}/{} to {}/{}",
        original.numerator(),
        original.denominator(),
        reduced.numerator(),
        reduced.denominator()
    );
    assert!(!original.is_irreducible());
    assert!(reduced.is_irreducible());
    assert_eq!(reduced.numerator(), -5);
    assert_eq!(reduced.denominator(), 11);
}

#[test]
fn all_negative() {
    let original = Ratio::new(-99, -9999).unwrap();
    let reduced = original.reduced();
    println!(
        "Reduced {}/{} to {}/{}",
        original.numerator(),
        original.denominator(),
        reduced.numerator(),
        reduced.denominator()
    );
    assert!(!original.is_irreducible());
    assert!(reduced.is_irreducible());
    assert_eq!(reduced.numerator(), 1);
    assert_eq!(reduced.denominator(), 101);
}
