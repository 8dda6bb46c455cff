use ctcore::molfile::ChiralFlag;
use ctcore::molfile::ChiralFlagBuilder;
use ctcore::protocol::Builder;
use ctcore::protocol::Error;
use ctcore::protocol::Target;
use ctcore::text::Printable;

#[test]
fn not_limit_zero() {
    let builder = ChiralFlagBuilder(0);

    assert_eq!(builder.push(Printable::new(b'0')), Err(Error::space()))
}

#[test]
fn not_limit_space() {
    let builder = ChiralFlagBuilder(1);

    assert_eq!(
        builder.push(Printable::new(b' ')),
        Ok(Target::Builder(ChiralFlagBuilder(2)))
    )
}

#[test]
fn limit_space() {
    let builder = ChiralFlagBuilder(2);

    assert_eq!(builder.push(Printable::new(b' ')), Err(Error::flag()))
}

#[test]
fn limit_zero() {
    let builder = ChiralFlagBuilder(2);

    assert_eq!(
        builder.push(Printable::new(b'0')),
        Ok(Target::Product(ChiralFlag::NotChiral))
    )
}

#[test]
fn limit_one() {
    let builder = ChiralFlagBuilder(2);

    assert_eq!(
        builder.push(Printable::new(b'1')),
        Ok(Target::Product(ChiralFlag::Chiral))
    )
}

#[test]
fn chiral_flag_not_done() {
    let builder = ChiralFlagBuilder(2);

    assert_eq!(builder.done(), None)
}
