use ore_boost::numeric::Numeric;

const ONE: i128 = 1 << 48;

#[test]
fn numeric_from_u64_scales_by_two_to_the_48() {
    assert_eq!(Numeric::from_u64(5).bits, 5 * ONE);
    assert_eq!(Numeric::zero().bits, 0);
}

#[test]
fn numeric_from_fraction_rounds_down() {
    assert_eq!(Numeric::from_fraction(1, 3).bits, ONE / 3);
    assert_eq!(Numeric::from_fraction(100, 3).bits, 100 * ONE / 3);
    assert_eq!(Numeric::from_fraction(6, 3).bits, 2 * ONE);
}

#[test]
fn numeric_to_u64_floors() {
    assert_eq!(Numeric::from_fraction(7, 2).to_u64(), 3);
    assert_eq!(Numeric::from_u64(42).to_u64(), 42);
    assert_eq!(Numeric::zero().to_u64(), 0);
}

#[test]
fn numeric_add_sub_are_exact() {
    let a = Numeric::from_u64(3);
    let b = Numeric::from_fraction(1, 4);
    assert_eq!(a.add(b).bits, 3 * ONE + ONE / 4);
    assert_eq!(a.sub(b).bits, 3 * ONE - ONE / 4);
    assert_eq!(b.sub(a).bits, ONE / 4 - 3 * ONE);
}

#[test]
fn numeric_mul_keeps_scale() {
    let a = Numeric::from_u64(6);
    let b = Numeric::from_fraction(1, 2);
    assert_eq!(a.mul(b).bits, 3 * ONE);
    let third = Numeric::from_fraction(1, 3);
    assert_eq!(third.mul(Numeric::from_u64(100)).bits, (ONE / 3) * 100);
}

#[test]
fn numeric_div_keeps_scale() {
    let a = Numeric::from_u64(10);
    let b = Numeric::from_u64(4);
    assert_eq!(a.div(b).bits, ONE * 10 / 4);
    assert_eq!(Numeric::from_u64(1).div(Numeric::from_u64(3)).bits, ONE / 3);
}

#[test]
fn numeric_comparisons() {
    let a = Numeric::from_u64(1);
    let b = Numeric::from_u64(2);
    assert!(a.lt(b));
    assert!(!b.lt(a));
    assert!(b.gt(a));
    assert!(!a.gt(a));
}
