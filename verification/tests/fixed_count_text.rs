use ctcore::text::Digit;
use ctcore::text::FixedCount;
use ctcore::text::FixedNatural;

#[test]
fn fixed_count_from_int_zero() {
    assert_eq!(FixedCount::<0>::from_int(0), Some(FixedCount::Zero))
}

#[test]
fn fixed_count_nonzero() {
    assert_eq!(
        FixedCount::<1>::from_int(1),
        Some(FixedCount::Positive(FixedNatural::from_int(1).unwrap()))
    )
}

#[test]
fn i_zero_empty() {
    let digits = vec![];

    assert_eq!(FixedCount::<0>::from_digits(digits), None)
}

#[test]
fn i_non_zero_empty() {
    let digits = vec![];

    assert_eq!(FixedCount::<1>::from_digits(digits), None)
}

#[test]
fn i_zero_one_zero() {
    let digits = vec![Digit::d0()];

    assert_eq!(FixedCount::<0>::from_digits(digits), Some(FixedCount::Zero))
}

#[test]
fn i_zero_one_non_zero() {
    let digits = vec![Digit::d1()];

    assert_eq!(FixedCount::<0>::from_digits(digits), None)
}

#[test]
fn i_non_zero_one_non_zero() {
    let digits = vec![Digit::d4(), Digit::d2()];

    assert_eq!(FixedCount::<1>::from_digits(digits), FixedCount::from_int(42))
}
