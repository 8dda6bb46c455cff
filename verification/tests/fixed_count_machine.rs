use ctcore::primitive::FixedCount;
use ctcore::primitive::FixedCountBuilder;
use ctcore::primitive::Natural;
use ctcore::protocol::Builder;
use ctcore::protocol::Error;
use ctcore::protocol::Target;
use ctcore::text::Printable;

#[test]
fn fixed_count_zero() {
    assert_eq!(FixedCount::<1>::from_int(0), Some(FixedCount::Zero))
}

#[test]
fn non_zero_in_bounds() {
    assert_eq!(
        FixedCount::<2>::from_int(42),
        Some(FixedCount::Natural(Natural::from_int(42).unwrap()))
    )
}

#[test]
fn non_zero_out_of_bounds() {
    assert_eq!(FixedCount::<1>::from_int(42), None)
}

#[test]
fn fixed_count_pad_limit_space() {
    let builder = FixedCountBuilder::<1>::Pad(0);

    assert_eq!(builder.push(Printable::new(b' ')), Err(Error::digit()))
}

#[test]
fn fixed_count_pad_not_limit_space() {
    let builder = FixedCountBuilder::<2>::Pad(0);

    assert_eq!(
        builder.push(Printable::new(b' ')),
        Ok(Target::Builder(FixedCountBuilder::Pad(1)))
    )
}

#[test]
fn fixed_count_pad_limit_zero() {
    let builder = FixedCountBuilder::<1>::Pad(0);

    assert_eq!(
        builder.push(Printable::new(b'0')),
        Ok(Target::Product(FixedCount::Zero))
    )
}

#[test]
fn fixed_count_pad_not_limit_zero() {
    let builder = FixedCountBuilder::<2>::Pad(0);

    assert_eq!(builder.push(Printable::new(b'0')), Err(Error::non_zero_digit()))
}

#[test]
fn fixed_count_pad_limit_non_zero() {
    let builder = FixedCountBuilder::<1>::Pad(0);

    assert_eq!(
        builder.push(Printable::new(b'1')),
        Ok(Target::Product(FixedCount::Natural(Natural::from_int(1).unwrap())))
    )
}

#[test]
fn fixed_count_pad_not_limit_non_zero() {
    let builder = FixedCountBuilder::<3>::Pad(1);

    assert_eq!(
        builder.push(Printable::new(b'1')),
        Ok(Target::Builder(FixedCountBuilder::Count(
            1,
            Natural::from_int(1).unwrap()
        )))
    )
}

#[test]
fn count_limit_space() {
    let builder = FixedCountBuilder::<2>::Count(0, Natural::from_int(1).unwrap());

    assert_eq!(builder.push(Printable::new(b' ')), Err(Error::digit()))
}

#[test]
fn count_limit_digit() {
    let builder = FixedCountBuilder::<2>::Count(0, Natural::from_int(4).unwrap());

    assert_eq!(
        builder.push(Printable::new(b'2')),
        Ok(Target::Product(FixedCount::from_int(42).unwrap()))
    )
}

#[test]
fn count_not_limit_digit() {
    let builder = FixedCountBuilder::<3>::Count(0, Natural::from_int(4).unwrap());

    assert_eq!(
        builder.push(Printable::new(b'2')),
        Ok(Target::Builder(FixedCountBuilder::Count(
            0,
            Natural::from_int(42).unwrap()
        )))
    )
}

#[test]
fn pad() {
    let builder = FixedCountBuilder::<3>::Pad(2);

    assert_eq!(builder.done(), None)
}

#[test]
fn count_not_limit() {
    let builder = FixedCountBuilder::<3>::Count(1, Natural::from_int(4).unwrap());

    assert_eq!(builder.done(), None)
}

#[test]
fn count_limit() {
    let builder = FixedCountBuilder::<3>::Count(1, Natural::from_int(42).unwrap());

    assert_eq!(builder.done(), Some(FixedCount::from_int(42).unwrap()))
}
