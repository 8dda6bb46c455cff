use ctcore::primitive::FixedInteger;
use ctcore::primitive::FixedIntegerBuilder;
use ctcore::primitive::Natural;
use ctcore::protocol::Builder;
use ctcore::protocol::Error;
use ctcore::protocol::Target;
use ctcore::text::NonZeroDigit;
use ctcore::text::Printable;

#[test]
fn fixed_integer_zero() {
    assert_eq!(FixedInteger::<2>::from_int(0), Some(FixedInteger::Zero))
}

#[test]
fn negative_over_limit() {
    assert_eq!(FixedInteger::<2>::from_int(-42), None)
}

#[test]
fn negative_at_limit() {
    assert_eq!(
        FixedInteger::<3>::from_int(-42),
        Some(FixedInteger::Negative(Natural::from_int(42).unwrap()))
    )
}

#[test]
fn positive_at_limit() {
    assert_eq!(
        FixedInteger::<2>::from_int(42),
        Some(FixedInteger::Positive(Natural::from_int(42).unwrap()))
    )
}

#[test]
fn positive_over_limit() {
    assert_eq!(FixedInteger::<1>::from_int(42), None)
}

#[test]
fn fixed_integer_pad_limit_space() {
    let builder = FixedIntegerBuilder::<1>::Pad(0);

    assert_eq!(builder.push(Printable::new(b' ')), Err(Error::digit()))
}

#[test]
fn fixed_integer_pad_limit_zero() {
    let builder = FixedIntegerBuilder::<1>::Pad(0);

    assert_eq!(
        builder.push(Printable::new(b'0')),
        Ok(Target::Product(FixedInteger::<1>::Zero))
    )
}

#[test]
fn fixed_integer_pad_limit_non_zero() {
    let builder = FixedIntegerBuilder::<1>::Pad(0);

    assert_eq!(
        builder.push(Printable::new(b'1')),
        Ok(Target::Product(FixedInteger::<1>::Positive(Natural::new(
            NonZeroDigit::D1
        ))))
    )
}

#[test]
fn fixed_integer_pad_not_limit_space() {
    let builder = FixedIntegerBuilder::<2>::Pad(0);

    assert_eq!(
        builder.push(Printable::new(b' ')),
        Ok(Target::Builder(FixedIntegerBuilder::<2>::Pad(1)))
    )
}

#[test]
fn pad_not_limit_minus() {
    let builder = FixedIntegerBuilder::<2>::Pad(0);

    assert_eq!(
        builder.push(Printable::new(b'-')),
        Ok(Target::Builder(FixedIntegerBuilder::<2>::Minus(0)))
    )
}

#[test]
fn fixed_integer_pad_not_limit_zero() {
    let builder = FixedIntegerBuilder::<2>::Pad(0);

    assert_eq!(builder.push(Printable::new(b'0')), Err(Error::integer_leading()))
}

#[test]
fn fixed_integer_pad_not_limit_non_zero() {
    let builder = FixedIntegerBuilder::<2>::Pad(0);

    assert_eq!(
        builder.push(Printable::new(b'1')),
        Ok(Target::Builder(FixedIntegerBuilder::<2>::Positive(
            0,
            Natural::new(NonZeroDigit::D1)
        )))
    )
}

#[test]
fn minus_minus() {
    let builder = FixedIntegerBuilder::<2>::Minus(0);

    assert_eq!(builder.push(Printable::new(b'-')), Err(Error::non_zero_digit()))
}

#[test]
fn minus_zero() {
    let builder = FixedIntegerBuilder::<2>::Minus(0);

    assert_eq!(builder.push(Printable::new(b'-')), Err(Error::non_zero_digit()))
}

#[test]
fn minus_not_limit_non_zero() {
    let builder = FixedIntegerBuilder::<3>::Minus(0);

    assert_eq!(
        builder.push(Printable::new(b'1')),
        Ok(Target::Builder(FixedIntegerBuilder::<3>::Negative(
            0,
            Natural::new(NonZeroDigit::D1)
        )))
    )
}

#[test]
fn minus_limit_non_zero() {
    let builder = FixedIntegerBuilder::<2>::Minus(0);

    assert_eq!(
        builder.push(Printable::new(b'1')),
        Ok(Target::Product(FixedInteger::Negative(Natural::new(
            NonZeroDigit::D1
        ))))
    )
}

#[test]
fn negative_non_digit() {
    let builder = FixedIntegerBuilder::<3>::Negative(0, Natural::new(NonZeroDigit::D1));

    assert_eq!(builder.push(Printable::new(b' ')), Err(Error::digit()))
}

#[test]
fn negative_limit_digit() {
    let builder = FixedIntegerBuilder::<3>::Negative(0, Natural::new(NonZeroDigit::D4));

    assert_eq!(
        builder.push(Printable::new(b'2')),
        Ok(Target::Product(FixedInteger::Negative(
            Natural::from_int(42).unwrap()
        )))
    )
}

#[test]
fn negative_not_limit_digit() {
    let builder = FixedIntegerBuilder::<4>::Negative(0, Natural::new(NonZeroDigit::D4));

    assert_eq!(
        builder.push(Printable::new(b'2')),
        Ok(Target::Builder(FixedIntegerBuilder::Negative(
            0,
            Natural::from_int(42).unwrap()
        )))
    )
}

#[test]
fn positive_non_digit() {
    let builder = FixedIntegerBuilder::<2>::Positive(0, Natural::new(NonZeroDigit::D4));

    assert_eq!(builder.push(Printable::new(b' ')), Err(Error::digit()))
}

#[test]
fn positive_limit_digit() {
    let builder = FixedIntegerBuilder::<2>::Positive(0, Natural::new(NonZeroDigit::D4));

    assert_eq!(
        builder.push(Printable::new(b'2')),
        Ok(Target::Product(FixedInteger::Positive(
            Natural::from_int(42).unwrap()
        )))
    )
}

#[test]
fn positive_not_limit_digit() {
    let builder = FixedIntegerBuilder::<3>::Positive(0, Natural::new(NonZeroDigit::D4));

    assert_eq!(
        builder.push(Printable::new(b'2')),
        Ok(Target::Builder(FixedIntegerBuilder::Positive(
            0,
            Natural::from_int(42).unwrap()
        )))
    )
}

#[test]
fn postitive_not_done() {
    let builder = FixedIntegerBuilder::<3>::Positive(0, Natural::new(NonZeroDigit::D4));

    assert_eq!(builder.done(), None)
}

#[test]
fn positive_done() {
    let builder = FixedIntegerBuilder::<1>::Positive(0, Natural::new(NonZeroDigit::D1));

    assert_eq!(
        builder.done(),
        Some(FixedInteger::Positive(Natural::from_int(1).unwrap()))
    )
}

#[test]
fn negative_not_done() {
    let builder = FixedIntegerBuilder::<3>::Negative(0, Natural::new(NonZeroDigit::D4));

    assert_eq!(builder.done(), None)
}

#[test]
fn negative_done() {
    let builder = FixedIntegerBuilder::<2>::Negative(0, Natural::new(NonZeroDigit::D1));

    assert_eq!(
        builder.done(),
        Some(FixedInteger::Negative(Natural::from_int(1).unwrap()))
    )
}

#[test]
fn positive_not_done() {
    let builder = FixedIntegerBuilder::<3>::Positive(0, Natural::new(NonZeroDigit::D4));

    assert_eq!(builder.done(), None)
}
