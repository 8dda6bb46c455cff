use ctcore::molfile::ChiralFlag;
use ctcore::molfile::Counts;
use ctcore::molfile::Header;
use ctcore::molfile::MoleculeName;
use ctcore::molfile::Version;
use ctcore::primitive::FixedCount;
use ctcore::primitive::Line;
use ctcore::read::header;
use ctcore::read::Error;
use ctcore::read::Reader;

#[test]
fn eof() {
    let bytes = b"".to_vec();
    let mut reader = Reader::new(bytes);

    assert_eq!(header(&mut reader), Err(Error::Eof(0)))
}

#[test]
fn eof_after_user_initials() {
    let bytes = vec!["", "AB"].join("\n").into_bytes();
    let mut reader = Reader::new(bytes);

    assert_eq!(header(&mut reader), Err(Error::Eof(1)))
}

#[test]
fn eof_after_program_name() {
    let bytes = vec!["", "AB-CTCORE-"].join("\n").into_bytes();
    let mut reader = Reader::new(bytes);

    assert_eq!(header(&mut reader), Err(Error::Eof(1)))
}

#[test]
fn eof_after_timestamp() {
    let bytes = vec!["", "AB-CTCORE-0102030405"]
        .join("\n")
        .into_bytes();
    let mut reader = Reader::new(bytes);

    assert_eq!(header(&mut reader), Err(Error::Eof(1)))
}

#[test]
fn eof_after_dimensional_codes() {
    let bytes = vec!["", "AB-CTCORE-01020304052D"]
        .join("\n")
        .into_bytes();
    let mut reader = Reader::new(bytes);

    assert_eq!(header(&mut reader), Err(Error::Eof(1)))
}

#[test]
fn eof_after_major_scaling_factor() {
    let bytes = vec!["", "AB-CTCORE-01020304052D42"]
        .join("\n")
        .into_bytes();
    let mut reader = Reader::new(bytes);

    assert_eq!(header(&mut reader), Err(Error::Eof(1)))
}

#[test]
fn eof_after_minor_scaling_factor() {
    let bytes = vec!["", "AB-CTCORE-01020304052D42   1.23456"]
        .join("\n")
        .into_bytes();
    let mut reader = Reader::new(bytes);

    assert_eq!(header(&mut reader), Err(Error::Eof(1)))
}

#[test]
fn eof_after_energy() {
    let bytes = vec!["", "AB-CTCORE-01020304052D42   1.23456     1.23456"]
        .join("\n")
        .into_bytes();
    let mut reader = Reader::new(bytes);

    assert_eq!(header(&mut reader), Err(Error::Eof(1)))
}

#[test]
fn eof_after_comment() {
    let bytes = vec![
        "Name",
        "AB-CTCORE-01020304052D42   1.23456     1.23456 12345",
        "COMMENT",
    ]
    .join("\n")
    .into_bytes();

    let mut reader = Reader::new(bytes);

    assert_eq!(header(&mut reader), Err(Error::Eof(2)))
}

#[test]
fn parameters_blank_valid() {
    let bytes = vec![
        "Name",
        "",
        "Comment",
        "  0  0  0     1                   V3000",
        "",
    ]
    .join("\n")
    .into_bytes();
    let mut reader = Reader::new(bytes);

    assert_eq!(
        header(&mut reader),
        Ok(Header {
            molecule_name: MoleculeName::from_str("Name").unwrap(),
            parameters: None,
            comment: Line::from_str("Comment").unwrap(),
            counts: Counts {
                atoms: FixedCount::Zero,
                bonds: FixedCount::Zero,
                atom_lists: FixedCount::Zero,
                chiral: ChiralFlag::Chiral,
                version: Version::V3,
            }
        })
    )
}

#[test]
fn parameters_blank_valid_carriage_returns() {
    let bytes = vec![
        "Name",
        "",
        "Comment",
        "  0  0  0     1                   V3000",
        "",
    ]
    .join("\r")
    .into_bytes();
    let mut reader = Reader::new(bytes);

    assert_eq!(
        header(&mut reader),
        Ok(Header {
            molecule_name: MoleculeName::from_str("Name").unwrap(),
            parameters: None,
            comment: Line::from_str("Comment").unwrap(),
            counts: Counts {
                atoms: FixedCount::Zero,
                bonds: FixedCount::Zero,
                atom_lists: FixedCount::Zero,
                chiral: ChiralFlag::Chiral,
                version: Version::V3,
            }
        })
    )
}
