use ctcore::molfile::ChiralFlag;
use ctcore::molfile::Version;
use ctcore::primitive::FixedInteger;
use ctcore::primitive::FixedReal;
use ctcore::primitive::Natural;
use ctcore::protocol::Target;
use ctcore::read::Error;
use ctcore::read::Reader;
use ctcore::text::Digit;
use ctcore::text::FortranInt;
use ctcore::text::Kind;
use ctcore::text::Printable;

fn space() -> Printable {
    Printable::new(b' ')
}

#[test]
fn chiral_flag_not_chiral() {
    let mut reader = Reader::new(b"  0".to_vec());

    assert_eq!(
        reader.read(Target::Builder(ChiralFlag::start())),
        Ok(ChiralFlag::NotChiral)
    )
}

#[test]
fn chiral_flag_chiral() {
    let mut reader = Reader::new(b"  1".to_vec());

    assert_eq!(
        reader.read(Target::Builder(ChiralFlag::start())),
        Ok(ChiralFlag::Chiral)
    )
}

#[test]
fn chiral_flag_blank_expected() {
    let mut reader = Reader::new(b"0  ".to_vec());

    assert_eq!(
        reader.read(Target::Builder(ChiralFlag::start())),
        Err(Error::Character(0, 0, vec![space()]))
    )
}

#[test]
fn chiral_flag_two_rejected() {
    let mut reader = Reader::new(b"  2".to_vec());

    assert_eq!(
        reader.read(Target::Builder(ChiralFlag::start())),
        Err(Error::Character(
            0,
            2,
            vec![Printable::new(b'0'), Printable::new(b'1')]
        ))
    )
}

#[test]
fn version_v2000() {
    let mut reader = Reader::new(b" V2000".to_vec());

    assert_eq!(
        reader.read(Target::Builder(Version::start())),
        Ok(Version::V2)
    )
}

#[test]
fn version_v3000() {
    let mut reader = Reader::new(b" V3000".to_vec());

    assert_eq!(
        reader.read(Target::Builder(Version::start())),
        Ok(Version::V3)
    )
}

#[test]
fn version_non_zero_final_column() {
    let mut reader = Reader::new(b" V2001".to_vec());

    assert_eq!(
        reader.read(Target::Builder(Version::start())),
        Err(Error::Character(0, 5, vec![Printable::new(b'0')]))
    )
}

#[test]
fn version_missing_leading_blank() {
    let mut reader = Reader::new(b"V2000".to_vec());

    assert_eq!(
        reader.read(Target::Builder(Version::start())),
        Err(Error::Character(0, 0, vec![space()]))
    )
}

#[test]
fn scan_aborts_on_forbidden_token() {
    let mut reader = Reader::new(b"abc$$$$def".to_vec());
    let forbidden = vec![b"$$$$".to_vec()];

    assert_eq!(
        reader.scan_line_excluding(80, &forbidden),
        Err(Error::Forbidden(0, 3, 7))
    )
}

#[test]
fn scan_collects_up_to_eol() {
    let mut reader = Reader::new(b"ab\ncd".to_vec());
    let forbidden = vec![b"$$$$".to_vec()];

    let collected = reader.scan_line_excluding(80, &forbidden).unwrap();

    assert_eq!(collected.len(), 2);
    assert_eq!(reader.next_line(), Ok(()))
}

#[test]
fn fixed_format_int_all_blank_is_absent() {
    let mut reader = Reader::new(b"   ".to_vec());

    assert_eq!(reader.decode_fixed_format_int::<3>(), Ok(None))
}

#[test]
fn fixed_format_int_padded_zero() {
    let mut reader = Reader::new(b" 0 ".to_vec());

    assert_eq!(
        reader.decode_fixed_format_int::<3>(),
        Ok(Some(FortranInt::zero()))
    )
}

#[test]
fn fixed_format_int_full_width() {
    let mut reader = Reader::new(b"999".to_vec());

    assert_eq!(
        reader.decode_fixed_format_int::<3>(),
        Ok(FortranInt::from_int(999))
    )
}

#[test]
fn fixed_format_int_negative() {
    let mut reader = Reader::new(b" -42".to_vec());

    assert_eq!(
        reader.decode_fixed_format_int::<4>(),
        Ok(FortranInt::from_int(-42))
    )
}

#[test]
fn fixed_format_int_sign_without_digits() {
    let mut reader = Reader::new(b" - ".to_vec());

    assert_eq!(
        reader.decode_fixed_format_int::<3>(),
        Err(Error::Character(0, 3, Printable::digits()))
    )
}

#[test]
fn fixed_format_int_skips_leading_zeros() {
    let mut reader = Reader::new(b"007".to_vec());

    assert_eq!(
        reader.decode_fixed_format_int::<3>(),
        Ok(FortranInt::from_int(7))
    )
}

#[test]
fn fixed_format_real_full_width() {
    let mut reader = Reader::new(b"1234.12341".to_vec());

    let real = reader.decode_fixed_format_real::<4, 5>().unwrap().unwrap();

    assert_eq!(real.integer_part, FortranInt::from_int(1234).unwrap());
    assert_eq!(
        real.fractional_part,
        vec![Digit::d1(), Digit::d2(), Digit::d3(), Digit::d4(), Digit::d1()]
    )
}

#[test]
fn fixed_format_real_all_blank_is_absent() {
    let mut reader = Reader::new(b"          ".to_vec());

    assert_eq!(reader.decode_fixed_format_real::<4, 5>(), Ok(None))
}

#[test]
fn fixed_format_real_missing_dot() {
    let mut reader = Reader::new(b"1234512341".to_vec());

    assert_eq!(
        reader.decode_fixed_format_real::<4, 5>(),
        Err(Error::Character(0, 4, vec![Printable::new(b'.')]))
    )
}

#[test]
fn fixed_format_real_zero_integer_part() {
    let mut reader = Reader::new(b"    .5    ".to_vec());

    let real = reader.decode_fixed_format_real::<4, 5>().unwrap().unwrap();

    assert_eq!(real.integer_part, FortranInt { kind: Kind::Zero });
    assert_eq!(real.fractional_part, vec![Digit::d5()])
}

#[test]
fn fixed_integer_zero_rendering_round_trip() {
    let mut reader = Reader::new(b"   0".to_vec());

    assert_eq!(
        reader.read(Target::Builder(FixedInteger::<4>::start())),
        Ok(FixedInteger::Zero)
    )
}

#[test]
fn fixed_integer_positive_rendering_round_trip() {
    let mut reader = Reader::new(b"  42".to_vec());

    assert_eq!(
        reader.read(Target::Builder(FixedInteger::<4>::start())),
        Ok(FixedInteger::Positive(Natural::from_int(42).unwrap()))
    )
}

#[test]
fn fixed_integer_negative_rendering_round_trip() {
    let mut reader = Reader::new(b" -42".to_vec());

    assert_eq!(
        reader.read(Target::Builder(FixedInteger::<4>::start())),
        Ok(FixedInteger::Negative(Natural::from_int(42).unwrap()))
    )
}

#[test]
fn fixed_real_exact_columns() {
    let mut reader = Reader::new(b"12.345".to_vec());

    assert_eq!(
        reader.read(Target::Builder(FixedReal::<2, 3>::start())),
        Ok(FixedReal(
            FixedInteger::from_int(12).unwrap(),
            vec![Digit::d3(), Digit::d4(), Digit::d5()]
        ))
    )
}

#[test]
fn fixed_real_one_fractional_digit_short() {
    let mut reader = Reader::new(b"12.34\n".to_vec());

    assert_eq!(
        reader.read(Target::Builder(FixedReal::<2, 3>::start())),
        Err(Error::Eol(0))
    )
}

#[test]
fn fixed_real_one_fractional_digit_short_at_end() {
    let mut reader = Reader::new(b"12.34".to_vec());

    assert_eq!(
        reader.read(Target::Builder(FixedReal::<2, 3>::start())),
        Err(Error::Eof(0))
    )
}

#[test]
fn fixed_real_one_fractional_digit_over() {
    let mut reader = Reader::new(b"12.3456\n".to_vec());

    assert_eq!(
        reader.read_line(Target::Builder(FixedReal::<2, 3>::start())),
        Err(Error::Overflow(0, 6))
    )
}
