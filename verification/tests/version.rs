use ctcore::molfile::Version;
use ctcore::molfile::VersionBuilder;
use ctcore::protocol::Builder;
use ctcore::protocol::Error;
use ctcore::protocol::Target;
use ctcore::text::Printable;

#[test]
fn pad_non_space() {
    let builder = VersionBuilder::Pad;

    assert_eq!(builder.push(Printable::new(b'A')), Err(Error::space()))
}

#[test]
fn pad_space() {
    let builder = VersionBuilder::Pad;

    assert_eq!(
        builder.push(Printable::new(b' ')),
        Ok(Target::Builder(VersionBuilder::V))
    )
}

#[test]
fn v_letter() {
    let builder = VersionBuilder::V;

    assert_eq!(builder.push(Printable::new(b'A')), Err(Error::v()))
}

#[test]
fn v_v() {
    let builder = VersionBuilder::V;

    assert_eq!(
        builder.push(Printable::new(b'V')),
        Ok(Target::Builder(VersionBuilder::Digit))
    )
}

#[test]
fn digit_two() {
    let builder = VersionBuilder::Digit;

    assert_eq!(
        builder.push(Printable::new(b'2')),
        Ok(Target::Builder(VersionBuilder::V2(0)))
    )
}

#[test]
fn digit_three() {
    let builder = VersionBuilder::Digit;

    assert_eq!(
        builder.push(Printable::new(b'3')),
        Ok(Target::Builder(VersionBuilder::V3(0)))
    )
}

#[test]
fn digit_letter() {
    let builder = VersionBuilder::Digit;

    assert_eq!(builder.push(Printable::new(b'X')), Err(Error::two_or_three()))
}

#[test]
fn v2_non_zero() {
    let builder = VersionBuilder::V2(0);

    assert_eq!(
        builder.push(Printable::new(b'1')),
        Err(Error::Character(vec![Printable::new(b'0')]))
    )
}

#[test]
fn v2_first_zero() {
    let builder = VersionBuilder::V2(0);

    assert_eq!(
        builder.push(Printable::new(b'0')),
        Ok(Target::Builder(VersionBuilder::V2(1)))
    )
}

#[test]
fn v2_last_zero() {
    let builder = VersionBuilder::V2(2);

    assert_eq!(
        builder.push(Printable::new(b'0')),
        Ok(Target::Product(Version::V2))
    )
}

#[test]
fn v3_non_zero() {
    let builder = VersionBuilder::V3(0);

    assert_eq!(
        builder.push(Printable::new(b'1')),
        Err(Error::Character(vec![Printable::new(b'0')]))
    )
}

#[test]
fn v3_zero() {
    let builder = VersionBuilder::V3(0);

    assert_eq!(
        builder.push(Printable::new(b'0')),
        Ok(Target::Builder(VersionBuilder::V3(1)))
    )
}

#[test]
fn v3_last_zero() {
    let builder = VersionBuilder::V3(2);

    assert_eq!(
        builder.push(Printable::new(b'0')),
        Ok(Target::Product(Version::V3))
    )
}

#[test]
fn version_not_done() {
    let builder = VersionBuilder::V;

    assert_eq!(builder.done(), None)
}
