use ctcore::text::digits;
use ctcore::text::Digit;
use ctcore::text::FixedNatural;
use ctcore::text::Natural;
use ctcore::text::NonZeroDigit;

#[test]
fn fixed_natural_zero() {
    assert_eq!(digits(0), vec![])
}

#[test]
fn fixed_natural_one() {
    assert_eq!(digits(1), vec![Digit::d1()])
}

#[test]
fn ten() {
    assert_eq!(digits(10), vec![Digit::d1(), Digit::d0()])
}

#[test]
fn one_two_three_four() {
    assert_eq!(
        digits(1234),
        vec![Digit::d1(), Digit::d2(), Digit::d3(), Digit::d4()]
    )
}

#[test]
fn width_zero() {
    assert_eq!(
        FixedNatural::<0>::new(Natural::new(NonZeroDigit::D1, vec![])),
        None
    )
}

#[test]
fn fixed_natural_overflow() {
    assert_eq!(
        FixedNatural::<4>::new(Natural::new(
            NonZeroDigit::D1,
            vec![Digit::d0(), Digit::d1(), Digit::d2(), Digit::d3()]
        )),
        None
    )
}

#[test]
fn fixed_natural_underflow() {
    assert_eq!(
        FixedNatural::<4>::new(Natural::new(
            NonZeroDigit::D1,
            vec![Digit::d0(), Digit::d1()]
        )),
        Some(FixedNatural::from_int(101).unwrap())
    )
}

#[test]
fn fixed_natural_at_flow() {
    assert_eq!(
        FixedNatural::<4>::new(Natural::new(
            NonZeroDigit::D1,
            vec![Digit::d2(), Digit::d3(), Digit::d4()]
        )),
        Some(FixedNatural::from_int(1234).unwrap())
    )
}

#[test]
fn overflow() {
    assert_eq!(FixedNatural::<3>::from_int(12345), None)
}

#[test]
fn zero() {
    assert_eq!(FixedNatural::<3>::from_int(0), None)
}

#[test]
fn underflow() {
    assert_eq!(
        FixedNatural::<4>::from_int(123),
        Some(
            FixedNatural::new(Natural::new(
                NonZeroDigit::D1,
                vec![Digit::d2(), Digit::d3()]
            ))
            .unwrap()
        )
    )
}

#[test]
fn at_flow() {
    assert_eq!(
        FixedNatural::<4>::from_int(1234),
        Some(
            FixedNatural::new(Natural::new(
                NonZeroDigit::D1,
                vec![Digit::d2(), Digit::d3(), Digit::d4()]
            ))
            .unwrap()
        )
    )
}
