use vstd::prelude::*;

use crate::molfile::ChiralFlag;
use crate::molfile::Counts;
use crate::molfile::CountsV;
use crate::molfile::Header;
use crate::molfile::HeaderV;
use crate::molfile::MoleculeName;
use crate::molfile::MoleculeNameBuilder;
use crate::molfile::Parameters;
use crate::molfile::ParametersV;
use crate::molfile::Version;
use crate::molfile::VersionBuilder;
use crate::molfile::ChiralFlagBuilder;
use crate::primitive::FixedCount;
use crate::primitive::FixedCountBuilder;
use crate::primitive::FixedCountBuilderV;
use crate::primitive::FixedInteger;
use crate::primitive::FixedIntegerBuilder;
use crate::primitive::FixedIntegerBuilderV;
use crate::primitive::FixedReal;
use crate::primitive::FixedRealBuilder;
use crate::primitive::FixedRealBuilderV;
use crate::primitive::Line;
use crate::primitive::LineBuilder;
use crate::primitive::Sequence;
use crate::primitive::SequenceBuilder;
use crate::protocol::Target;

use super::error::Error;
use super::error::ErrorV;
use super::reader::Reader;
use super::reader::ReaderV;
use super::reader::spec_next_line;
use super::reader::spec_read_line_st;
use super::reader::spec_read_st;

verus! {

/// Decoding the optional parameters line: five opaque tokens, two reals and
/// two integers, in the format's column layout, then the line boundary.
pub open spec fn spec_parameters(rm: ReaderV) -> Result<(ParametersV, ReaderV), (ErrorV, ReaderV)> {
    match spec_read_st::<SequenceBuilder<2>>(rm, Seq::empty()) {
        Err(e) => Err(e),
        Ok((user_initials, rm1)) => match spec_read_st::<SequenceBuilder<8>>(rm1, Seq::empty()) {
            Err(e) => Err(e),
            Ok((program_name, rm2)) => match spec_read_st::<SequenceBuilder<10>>(
                rm2,
                Seq::empty(),
            ) {
                Err(e) => Err(e),
                Ok((timestamp, rm3)) => match spec_read_st::<SequenceBuilder<2>>(
                    rm3,
                    Seq::empty(),
                ) {
                    Err(e) => Err(e),
                    Ok((dimensional_codes, rm4)) => match spec_read_st::<FixedIntegerBuilder<2>>(
                        rm4,
                        FixedIntegerBuilderV::Pad(0),
                    ) {
                        Err(e) => Err(e),
                        Ok((major_scaling, rm5)) => match spec_read_st::<FixedRealBuilder<4, 5>>(
                            rm5,
                            FixedRealBuilderV::IntegerPart(FixedIntegerBuilderV::Pad(0)),
                        ) {
                            Err(e) => Err(e),
                            Ok((minor_scaling, rm6)) => match spec_read_st::<
                                FixedRealBuilder<6, 5>,
                            >(rm6, FixedRealBuilderV::IntegerPart(FixedIntegerBuilderV::Pad(0))) {
                                Err(e) => Err(e),
                                Ok((energy, rm7)) => match spec_read_line_st::<
                                    FixedIntegerBuilder<6>,
                                >(rm7, FixedIntegerBuilderV::Pad(0)) {
                                    Err(e) => Err(e),
                                    Ok((registry_number, rm8)) => Ok(
                                        (
                                            ParametersV {
                                                user_initials,
                                                program_name,
                                                timestamp,
                                                dimensional_codes,
                                                major_scaling,
                                                minor_scaling,
                                                energy,
                                                registry_number,
                                            },
                                            rm8,
                                        ),
                                    ),
                                },
                            },
                        },
                    },
                },
            },
        },
    }
}

/// Decoding everything behind the parameters line: the comment line, the
/// three counts, the reserved filler columns, the chirality flag, more
/// filler, and the version tag that ends its line.
pub open spec fn spec_header_rest(
    rm: ReaderV,
    molecule_name: Seq<u8>,
    parameters: Option<ParametersV>,
) -> Result<(HeaderV, ReaderV), (ErrorV, ReaderV)> {
    match spec_read_line_st::<LineBuilder<80>>(rm, Seq::empty()) {
        Err(e) => Err(e),
        Ok((comment, rm1)) => match spec_read_st::<FixedCountBuilder<3>>(
            rm1,
            FixedCountBuilderV::Pad(0),
        ) {
            Err(e) => Err(e),
            Ok((atoms, rm2)) => match spec_read_st::<FixedCountBuilder<3>>(
                rm2,
                FixedCountBuilderV::Pad(0),
            ) {
                Err(e) => Err(e),
                Ok((bonds, rm3)) => match spec_read_st::<FixedCountBuilder<3>>(
                    rm3,
                    FixedCountBuilderV::Pad(0),
                ) {
                    Err(e) => Err(e),
                    Ok((atom_lists, rm4)) => match spec_read_st::<SequenceBuilder<3>>(
                        rm4,
                        Seq::empty(),
                    ) {
                        Err(e) => Err(e),
                        Ok((_, rm5)) => match spec_read_st::<ChiralFlagBuilder>(rm5, 0) {
                            Err(e) => Err(e),
                            Ok((chiral, rm6)) => match spec_read_st::<SequenceBuilder<18>>(
                                rm6,
                                Seq::empty(),
                            ) {
                                Err(e) => Err(e),
                                Ok((_, rm7)) => match spec_read_line_st::<VersionBuilder>(
                                    rm7,
                                    VersionBuilder::Pad,
                                ) {
                                    Err(e) => Err(e),
                                    Ok((version, rm8)) => Ok(
                                        (
                                            HeaderV {
                                                molecule_name,
                                                parameters,
                                                comment,
                                                counts: CountsV {
                                                    atoms,
                                                    bonds,
                                                    atom_lists,
                                                    chiral,
                                                    version,
                                                },
                                            },
                                            rm8,
                                        ),
                                    ),
                                },
                            },
                        },
                    },
                },
            },
        },
    }
}

/// Decoding the whole header from the current position: the name line, the
/// parameters line or — when the line is intentionally blank — no
/// parameters, and everything behind them.
pub open spec fn spec_header(rm: ReaderV) -> Result<(HeaderV, ReaderV), (ErrorV, ReaderV)> {
    match spec_read_line_st::<MoleculeNameBuilder>(rm, Seq::empty()) {
        Err(e) => Err(e),
        Ok((molecule_name, rm1)) => {
            if !rm1.at_end() && rm1.head_is_eol() {
                match spec_next_line(rm1) {
                    Err(e) => Err(e),
                    Ok(rm2) => spec_header_rest(rm2, molecule_name, None),
                }
            } else {
                match spec_parameters(rm1) {
                    Err(e) => Err(e),
                    Ok((parameters, rm2)) => spec_header_rest(rm2, molecule_name, Some(parameters)),
                }
            }
        },
    }
}

/// Decodes a complete header, invoking the field machines in the exact order
/// and column widths the format mandates and propagating the first failure —
/// exactly as `spec_header` prescribes.
pub fn header(reader: &mut Reader) -> (r: Result<Header, Error>)
    requires
        old(reader)@.wf(),
    ensures
        final (reader)@.wf(),
        final (reader)@.bytes == old(reader)@.bytes,
        match (r, spec_header(old(reader)@)) {
            (Ok(h), Ok(pr)) => h@ == pr.0 && final (reader)@ == pr.1,
            (Err(e), Err(er)) => e@ == er.0 && final (reader)@ == er.1,
            _ => false,
        },
{
    let molecule_name = reader.read_line(Target::Builder(MoleculeName::start()))?;

    let parameters = if reader.has_blank() {
        reader.next_line()?;

        None
    } else {
        let user_initials = reader.read(Target::Builder(Sequence::<2>::start()))?;
        let program_name = reader.read(Target::Builder(Sequence::<8>::start()))?;
        let timestamp = reader.read(Target::Builder(Sequence::<10>::start()))?;
        let dimensional_codes = reader.read(Target::Builder(Sequence::<2>::start()))?;
        let major_scaling = reader.read(Target::Builder(FixedInteger::<2>::start()))?;
        let minor_scaling = reader.read(Target::Builder(FixedReal::<4, 5>::start()))?;
        let energy = reader.read(Target::Builder(FixedReal::<6, 5>::start()))?;
        let registry_number = reader.read_line(Target::Builder(FixedInteger::<6>::start()))?;

        Some(
            Parameters {
                user_initials,
                program_name,
                timestamp,
                dimensional_codes,
                major_scaling,
                minor_scaling,
                energy,
                registry_number,
            },
        )
    };

    let comment = reader.read_line(Target::Builder(Line::<80>::start()))?;
    let atoms = reader.read(Target::Builder(FixedCount::<3>::start()))?;
    let bonds = reader.read(Target::Builder(FixedCount::<3>::start()))?;
    let atom_lists = reader.read(Target::Builder(FixedCount::<3>::start()))?;

    reader.read(Target::Builder(Sequence::<3>::start()))?;

    let chiral = reader.read(Target::Builder(ChiralFlag::start()))?;

    reader.read(Target::Builder(Sequence::<18>::start()))?;

    let version = reader.read_line(Target::Builder(Version::start()))?;

    Ok(
        Header {
            molecule_name,
            parameters,
            comment,
            counts: Counts { atoms, bonds, atom_lists, chiral, version },
        },
    )
}

} // verus!
