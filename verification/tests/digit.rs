use ctcore::text::Digit;
use ctcore::text::NonZeroDigit;

#[test]
fn digit_zero() {
    assert_eq!(Digit::split(0), vec![Digit::Zero])
}

#[test]
fn digit_one() {
    assert_eq!(Digit::split(1), vec![Digit::NonZero(NonZeroDigit::D1)])
}

#[test]
fn forty_two() {
    assert_eq!(Digit::split(42), vec![Digit::d4(), Digit::d2()])
}
