use ctcore::primitive::Natural;
use ctcore::text::Digit;
use ctcore::text::NonZeroDigit;

#[test]
fn natural_empty() {
    assert_eq!(Natural::from_digits(vec![]), None)
}

#[test]
fn natural_leading_zero() {
    assert_eq!(Natural::from_digits(vec![Digit::d0(), Digit::d1()]), None)
}

#[test]
fn natural_leading_non_zero() {
    let mut expected = Natural::new(NonZeroDigit::D4);
    expected.push(Digit::d2());

    assert_eq!(
        Natural::from_digits(vec![Digit::d4(), Digit::d2()]),
        Some(expected)
    )
}

#[test]
fn natural_zero() {
    assert_eq!(Natural::from_int(0), None)
}

#[test]
fn one_digit() {
    assert_eq!(Natural::from_int(4), Some(Natural::new(NonZeroDigit::D4)))
}

#[test]
fn two_digits() {
    let mut expected = Natural::new(NonZeroDigit::D4);
    expected.push(Digit::d2());

    assert_eq!(Natural::from_int(42), Some(expected))
}
