use ctcore::molfile::MoleculeName;
use ctcore::primitive::Line;
use ctcore::primitive::Sequence;
use ctcore::protocol::Target;
use ctcore::read::Error;
use ctcore::read::Reader;
use ctcore::text::Character;
use ctcore::text::Digit;
use ctcore::text::Eol;
use ctcore::text::Printable;

#[test]
fn read_sequence_exact_arity() {
    let mut reader = Reader::new(b"AB".to_vec());

    let token = reader.read(Target::Builder(Sequence::<2>::start())).unwrap();

    assert_eq!(token, Sequence(vec![Printable::new(b'A'), Printable::new(b'B')]))
}

#[test]
fn read_sequence_short_fails_at_eol() {
    let mut reader = Reader::new(b"A\n".to_vec());

    assert_eq!(
        reader.read(Target::Builder(Sequence::<2>::start())),
        Err(Error::Eol(0))
    )
}

#[test]
fn read_line_accepts_short_line() {
    let mut reader = Reader::new(b"ab\nrest".to_vec());

    let line = reader.read_line(Target::Builder(Line::<80>::start())).unwrap();

    assert_eq!(line, Line::from_str("ab").unwrap())
}

#[test]
fn read_unprintable_fails_in_place() {
    let mut reader = Reader::new(b"a\x01b".to_vec());

    assert_eq!(
        reader.read(Target::Builder(Line::<80>::start())),
        Err(Error::Unprintable(0, 1, 0x01))
    )
}

#[test]
fn read_out_of_range_fails_in_place() {
    let mut reader = Reader::new(vec![b'a', 0x80]);

    assert_eq!(
        reader.read(Target::Builder(Line::<80>::start())),
        Err(Error::OutOfRange(0, 1, 0x80))
    )
}

#[test]
fn next_line_collapses_cr_lf() {
    let mut reader = Reader::new(b"\r\nx".to_vec());

    assert_eq!(reader.next_line(), Ok(()));
    assert!(!reader.has_blank());
    assert_eq!(
        reader.read(Target::Builder(Line::<80>::start())),
        Ok(Line::from_str("x").unwrap())
    )
}

#[test]
fn next_line_collapses_lf_cr() {
    let mut reader = Reader::new(b"\n\rx".to_vec());

    assert_eq!(reader.next_line(), Ok(()));
    assert_eq!(
        reader.read(Target::Builder(Line::<80>::start())),
        Ok(Line::from_str("x").unwrap())
    )
}

#[test]
fn next_line_keeps_cr_cr_as_two_boundaries() {
    let mut reader = Reader::new(b"\r\rx".to_vec());

    assert_eq!(reader.next_line(), Ok(()));
    assert!(reader.has_blank());
    assert_eq!(reader.next_line(), Ok(()));
    assert_eq!(
        reader.read(Target::Builder(Line::<80>::start())),
        Ok(Line::from_str("x").unwrap())
    )
}

#[test]
fn next_line_keeps_cr_rs_as_two_boundaries() {
    let mut reader = Reader::new(b"\r\x1ex".to_vec());

    assert_eq!(reader.next_line(), Ok(()));
    assert!(reader.has_blank());
    assert_eq!(reader.next_line(), Ok(()));
    assert!(!reader.has_blank());
}

#[test]
fn next_line_takes_record_separator_alone() {
    let mut reader = Reader::new(b"\x1e\nx".to_vec());

    assert_eq!(reader.next_line(), Ok(()));
    assert!(reader.has_blank());
}

#[test]
fn next_line_rejects_printable_content() {
    let mut reader = Reader::new(b"x\n".to_vec());

    assert_eq!(reader.next_line(), Err(Error::Overflow(0, 0)))
}

#[test]
fn next_line_at_end_of_input() {
    let mut reader = Reader::new(b"".to_vec());

    assert_eq!(reader.next_line(), Err(Error::Eof(0)))
}

#[test]
fn has_blank_sees_empty_line() {
    let mut reader = Reader::new(b"\nx".to_vec());

    assert!(reader.has_blank());
}

#[test]
fn has_blank_on_content() {
    let mut reader = Reader::new(b"x".to_vec());

    assert!(!reader.has_blank());
}

#[test]
fn molecule_name_from_str_caps_at_eighty() {
    let long = "a".repeat(81);
    let cap = "a".repeat(80);

    assert_eq!(
        MoleculeName::from_str(&long),
        MoleculeName::from_str(&cap)
    )
}

#[test]
fn molecule_name_from_str_rejects_unprintable() {
    assert_eq!(MoleculeName::from_str("a\tb"), None)
}

#[test]
fn molecule_name_len_counts_pushes() {
    let mut name = MoleculeName::from_str("ab").unwrap();
    assert_eq!(name.len(), 2);

    name.push(Printable::new(b'c'));
    assert_eq!(name.len(), 3);
}

#[test]
fn line_from_str_rejects_unprintable() {
    assert_eq!(Line::<80>::from_str("a\tb"), None)
}

#[test]
fn classify_line_feed() {
    assert_eq!(Character::from_byte(0x0a), Character::Eol(Eol::Lf));
    assert!(Character::from_byte(0x0a).is_lf());
    assert!(!Character::from_byte(0x0a).is_cr());
}

#[test]
fn classify_carriage_return() {
    assert_eq!(Character::from_byte(0x0d), Character::Eol(Eol::Cr));
    assert!(Character::from_byte(0x0d).is_cr());
    assert!(!Character::from_byte(0x0d).is_lf());
}

#[test]
fn classify_only_line_feed_is_lf() {
    assert!(Character::from_byte(0x0a).is_lf());
    assert!(!Character::from_byte(0x0d).is_lf());
    assert!(!Character::from_byte(0x1e).is_lf());
}

#[test]
fn classify_record_separator() {
    assert_eq!(Character::from_byte(0x1e), Character::Eol(Eol::Rs));
    assert!(Character::from_byte(0x1e).is_rs());
}

#[test]
fn classify_printable_and_control() {
    assert_eq!(
        Character::from_byte(b'A'),
        Character::Printable(Printable::new(b'A'))
    );
    assert_eq!(Character::from_byte(0x07), Character::Unprintable(0x07));
    assert_eq!(Character::from_byte(0x7f), Character::Unprintable(0x7f));
    assert_eq!(Character::from_byte(0x80), Character::OutOfRange(0x80));
}

#[test]
fn strict_and_permissive_leading_zero_policies_differ() {
    let digits = vec![Digit::d0(), Digit::d4(), Digit::d2()];

    assert_eq!(ctcore::primitive::Natural::from_digits(digits.clone()), None);
    assert!(ctcore::text::Natural::from_digits(digits).is_some());
}

#[test]
fn text_sequence_from_str_classifies_all_bytes() {
    let sequence = ctcore::text::Sequence::<10>::from_str("a b").unwrap();

    assert_eq!(sequence.len(), 3);
}

#[test]
fn text_sequence_from_str_rejects_overflow() {
    assert_eq!(ctcore::text::Sequence::<2>::from_str("abc"), None)
}

#[test]
fn text_sequence_new_caps_length() {
    let chars = vec![Character::from_byte(b'a'), Character::from_byte(b'b')];

    assert!(ctcore::text::Sequence::<2>::new(chars.clone()).is_some());
    assert_eq!(ctcore::text::Sequence::<1>::new(chars), None);
}
