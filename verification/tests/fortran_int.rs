use ctcore::text::FixedNatural;
use ctcore::text::FortranInt;
use ctcore::text::Kind;

#[test]
fn fortran_int_nonzero() {
    assert_eq!(
        FortranInt::<1>::positive(FixedNatural::from_int(1).unwrap()),
        Some(FortranInt {
            kind: Kind::Positive(FixedNatural::from_int(1).unwrap())
        })
    )
}

#[test]
fn width_one() {
    assert_eq!(
        FortranInt::<1>::negative(FixedNatural::from_int(1).unwrap()),
        None
    )
}

#[test]
fn fortran_int_at_flow() {
    assert_eq!(
        FortranInt::<3>::negative(FixedNatural::from_int(42).unwrap()),
        Some(FortranInt {
            kind: Kind::Negative(FixedNatural::from_int(42).unwrap())
        })
    )
}

#[test]
fn positive_overflow() {
    assert_eq!(FortranInt::<3>::from_int(12345), None)
}

#[test]
fn negative_overflow() {
    assert_eq!(FortranInt::<3>::from_int(-1234), None)
}

#[test]
fn fortran_int_zero() {
    assert_eq!(
        FortranInt::<3>::from_int(0),
        Some(FortranInt { kind: Kind::Zero })
    )
}

#[test]
fn negative_undeflow() {
    assert_eq!(
        FortranInt::<4>::from_int(-12),
        Some(FortranInt {
            kind: Kind::Negative(FixedNatural::from_int(12).unwrap())
        })
    )
}

#[test]
fn negative_to_fit() {
    assert_eq!(
        FortranInt::<4>::from_int(-123),
        Some(FortranInt {
            kind: Kind::Negative(FixedNatural::from_int(123).unwrap())
        })
    )
}

#[test]
fn positive_underflow() {
    assert_eq!(
        FortranInt::<4>::from_int(123),
        Some(FortranInt {
            kind: Kind::Positive(FixedNatural::from_int(123).unwrap())
        })
    )
}

#[test]
fn negative_sign_counts_in_the_budget() {
    assert_eq!(FortranInt::<2>::from_int(-42), None);
    assert_eq!(
        FortranInt::<3>::from_int(-42),
        Some(FortranInt {
            kind: Kind::Negative(FixedNatural::from_int(42).unwrap())
        })
    );
}

#[test]
fn positive_to_fit() {
    assert_eq!(
        FortranInt::<4>::from_int(1234),
        Some(FortranInt {
            kind: Kind::Positive(FixedNatural::from_int(1234).unwrap())
        })
    )
}
