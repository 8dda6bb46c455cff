use ctcore::text::Digit;
use ctcore::text::Natural;
use ctcore::text::NonZeroDigit;

#[test]
fn empty() {
    let digits = vec![];

    assert_eq!(Natural::from_digits(digits), None)
}

#[test]
fn one_zero() {
    let digits = vec![Digit::d0()];

    assert_eq!(Natural::from_digits(digits), None)
}

#[test]
fn three_zeros() {
    let digits = vec![Digit::d0(), Digit::d0(), Digit::d0()];

    assert_eq!(Natural::from_digits(digits), None)
}

#[test]
fn leading_zero() {
    let digits = vec![Digit::d0(), Digit::d4(), Digit::d2()];

    assert_eq!(
        Natural::from_digits(digits),
        Some(Natural {
            head: NonZeroDigit::D4,
            tail: vec![Digit::d2()]
        })
    )
}

#[test]
fn leading_non_zero() {
    let digits = vec![Digit::d4(), Digit::d2()];

    assert_eq!(
        Natural::from_digits(digits),
        Some(Natural {
            head: NonZeroDigit::D4,
            tail: vec![Digit::d2()]
        })
    )
}
