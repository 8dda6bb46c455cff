//! Character-level primitives: byte classification, printable symbols,
//! digits, and the legacy fixed-format numeric types.

mod character;
mod count;
mod digit;
mod eol;
mod fixed_count;
mod fixed_natural;
mod fortran_float;
mod fortran_int;
mod natural;
mod non_zero_digit;
mod printable;
mod sequence;

pub use character::ByteClass;
pub use character::Character;
pub use character::classify;
pub use count::Count;
pub use digit::Digit;
pub use digit::dec_digits;
pub use digit::digits_value;
pub use digit::lemma_dec_digits_leading;
pub use digit::lemma_dec_digits_len_bound;
pub use digit::lemma_dec_digits_value;
pub use digit::spec_digit_of_byte;
pub use digit::spec_digit_of_val;
pub use eol::Eol;
pub use fixed_count::FixedCount;
pub use fixed_natural::FixedNatural;
pub use fixed_natural::digits;
pub use fortran_float::FortranFloat;
pub use fortran_float::FortranFloatV;
pub use fortran_int::FortranInt;
pub use fortran_int::FortranIntV;
pub use fortran_int::Kind;
pub use natural::Natural;
pub use natural::lemma_permissive_len;
pub use natural::lemma_permissive_of_rendering;
pub use natural::permissive_digits;
pub use non_zero_digit::NonZeroDigit;
pub use non_zero_digit::spec_non_zero_of_byte;
pub use printable::digit_bytes;
pub use printable::non_zero_digit_bytes;
pub use printable::printable_byte;
pub use printable::Printable;
pub use sequence::Sequence;
