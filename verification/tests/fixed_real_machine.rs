use ctcore::primitive::FixedInteger;
use ctcore::primitive::FixedIntegerBuilder;
use ctcore::primitive::FixedReal;
use ctcore::primitive::FixedRealBuilder;
use ctcore::primitive::Natural;
use ctcore::protocol::Builder;
use ctcore::protocol::Error;
use ctcore::protocol::Target;
use ctcore::text::Digit;
use ctcore::text::Printable;

#[test]
fn integer_part_not_limit_non_zero() {
    let builder = FixedRealBuilder::<2, 3>::IntegerPart(FixedIntegerBuilder::<2>::Pad(0));

    assert_eq!(
        builder.push(Printable::new(b'4')),
        Ok(Target::Builder(FixedRealBuilder::IntegerPart(
            FixedIntegerBuilder::Positive(0, Natural::from_int(4).unwrap())
        )))
    )
}

#[test]
fn integer_part_limit_digit() {
    let builder = FixedRealBuilder::<1, 3>::IntegerPart(FixedIntegerBuilder::<1>::Pad(0));

    assert_eq!(
        builder.push(Printable::new(b'4')),
        Ok(Target::Builder(FixedRealBuilder::Decimal(
            FixedInteger::from_int(4).unwrap()
        )))
    )
}

#[test]
fn decimal_non_dot() {
    let builder = FixedRealBuilder::<1, 3>::Decimal(FixedInteger::from_int(2).unwrap());

    assert_eq!(
        builder.push(Printable::new(b' ')),
        Err(Error::Character(vec![Printable::new(b'.')]))
    )
}

#[test]
fn decimal_dot() {
    let builder = FixedRealBuilder::<1, 3>::Decimal(FixedInteger::from_int(2).unwrap());

    assert_eq!(
        builder.push(Printable::new(b'.')),
        Ok(Target::Builder(FixedRealBuilder::FractionalPart(
            FixedInteger::from_int(2).unwrap(),
            vec![]
        )))
    )
}

#[test]
fn fractional_non_digit() {
    let builder =
        FixedRealBuilder::<1, 3>::FractionalPart(FixedInteger::from_int(2).unwrap(), vec![]);

    assert_eq!(builder.push(Printable::new(b'X')), Err(Error::digit()))
}

#[test]
fn fractional_limit_digit() {
    let builder =
        FixedRealBuilder::<1, 1>::FractionalPart(FixedInteger::from_int(4).unwrap(), vec![]);

    assert_eq!(
        builder.push(Printable::new(b'2')),
        Ok(Target::Product(FixedReal(
            FixedInteger::from_int(4).unwrap(),
            vec![Digit::d2()]
        )))
    )
}

#[test]
fn fractional_not_limit_digit() {
    let builder =
        FixedRealBuilder::<1, 2>::FractionalPart(FixedInteger::from_int(4).unwrap(), vec![]);

    assert_eq!(
        builder.push(Printable::new(b'2')),
        Ok(Target::Builder(FixedRealBuilder::FractionalPart(
            FixedInteger::from_int(4).unwrap(),
            vec![Digit::d2()]
        )))
    )
}

#[test]
fn fractional_not_done() {
    let builder =
        FixedRealBuilder::<1, 2>::FractionalPart(FixedInteger::from_int(4).unwrap(), vec![]);

    assert_eq!(builder.done(), None)
}

#[test]
fn fractional_done() {
    let builder = FixedRealBuilder::<1, 1>::FractionalPart(
        FixedInteger::from_int(4).unwrap(),
        vec![Digit::d2()],
    );

    assert_eq!(
        builder.done(),
        Some(FixedReal(FixedInteger::from_int(4).unwrap(), vec![Digit::d2()]))
    )
}

#[test]
fn non_fractional() {
    let builder = FixedRealBuilder::<2, 3>::IntegerPart(FixedIntegerBuilder::<2>::Pad(0));

    assert_eq!(builder.done(), None)
}
