use ctcore::text::Count;
use ctcore::text::Digit;
use ctcore::text::FixedCount;
use ctcore::text::FixedNatural;
use ctcore::text::FortranFloat;
use ctcore::text::FortranInt;
use ctcore::text::Kind;
use ctcore::text::Natural;
use ctcore::text::NonZeroDigit;
use ctcore::text::Printable;

#[test]
fn printable_from_byte_accepts_the_printable_range() {
    assert_eq!(Printable::from_byte(0x1f), None);
    assert_eq!(Printable::from_byte(0x7f), None);
    assert_eq!(Printable::from_byte(b' ').unwrap().to_byte(), b' ');
    assert_eq!(Printable::from_byte(b'~').unwrap().to_byte(), b'~');
}

#[test]
fn printable_digit_sets() {
    assert_eq!(Printable::space(), Printable::new(b' '));
    assert_eq!(Printable::digits().len(), 10);
    assert_eq!(Printable::non_zero_digits().len(), 9);
    assert_eq!(Printable::digits()[0], Printable::new(b'0'));
    assert_eq!(Printable::non_zero_digits()[0], Printable::new(b'1'));
}

#[test]
fn digit_from_printable_reads_digits_only() {
    assert_eq!(Digit::from_printable(Printable::new(b'0')), Some(Digit::d0()));
    assert_eq!(Digit::from_printable(Printable::new(b'7')), Some(Digit::d7()));
    assert_eq!(Digit::from_printable(Printable::new(b'x')), None);
}

#[test]
fn digit_to_non_zero() {
    assert_eq!(Digit::d0().to_non_zero(), None);
    assert_eq!(Digit::d5().to_non_zero(), Some(NonZeroDigit::D5));
}

#[test]
fn non_zero_digit_from_printable_rejects_zero() {
    assert_eq!(NonZeroDigit::from_printable(Printable::new(b'0')), None);
    assert_eq!(
        NonZeroDigit::from_printable(Printable::new(b'9')),
        Some(NonZeroDigit::D9)
    );
}

#[test]
fn permissive_natural_width() {
    let natural = Natural::new(NonZeroDigit::D1, vec![Digit::d0(), Digit::d1()]);

    assert_eq!(natural.width(), 3);
    assert_eq!(Natural::from_digit(NonZeroDigit::D7).width(), 1);
}

#[test]
fn fixed_natural_from_digit_needs_a_column() {
    assert_eq!(FixedNatural::<0>::from_digit(NonZeroDigit::D1), None);
    assert_eq!(
        FixedNatural::<1>::from_digit(NonZeroDigit::D1),
        FixedNatural::from_int(1)
    );
}

#[test]
fn fixed_count_zero_constructor() {
    assert_eq!(FixedCount::<3>::zero(), FixedCount::Zero);
}

#[test]
fn count_of_ten() {
    assert_eq!(
        Count::from_int(10),
        Count::Positive(Natural::new(NonZeroDigit::D1, vec![Digit::d0()]))
    )
}

#[test]
fn fortran_int_from_digit() {
    assert_eq!(FortranInt::<0>::from_digit(Digit::d1()), None);
    assert_eq!(
        FortranInt::<2>::from_digit(Digit::d0()),
        Some(FortranInt { kind: Kind::Zero })
    );
    assert_eq!(
        FortranInt::<2>::from_digit(Digit::d3()),
        FortranInt::from_int(3)
    );
}

#[test]
fn fortran_int_from_parts() {
    assert_eq!(
        FortranInt::<3>::from_postitive_parts(NonZeroDigit::D4, vec![Digit::d2()]),
        FortranInt::from_int(42)
    );
    assert_eq!(
        FortranInt::<1>::from_postitive_parts(NonZeroDigit::D4, vec![Digit::d2()]),
        None
    );
    assert_eq!(
        FortranInt::<3>::from_negative_parts(NonZeroDigit::D4, vec![Digit::d2()]),
        FortranInt::from_int(-42)
    );
    assert_eq!(
        FortranInt::<1>::from_negative_parts(NonZeroDigit::D4, vec![]),
        None
    );
}

#[test]
fn fortran_float_new_caps_the_fraction() {
    let integer = FortranInt::<2>::from_int(3).unwrap();

    assert!(FortranFloat::<2, 2>::new(integer.clone(), vec![Digit::d1()]).is_some());
    assert_eq!(
        FortranFloat::<2, 1>::new(integer, vec![Digit::d1(), Digit::d4()]),
        None
    );
}
