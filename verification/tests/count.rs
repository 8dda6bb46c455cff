use ctcore::text::Count;
use ctcore::text::Digit;
use ctcore::text::Natural;
use ctcore::text::NonZeroDigit;

#[test]
fn count_zero() {
    assert_eq!(Count::from_int(0), Count::Zero)
}

#[test]
fn non_zero() {
    assert_eq!(
        Count::from_int(123),
        Count::Positive(Natural {
            head: NonZeroDigit::D1,
            tail: vec![Digit::d2(), Digit::d3()]
        })
    )
}
