use vstd::prelude::*;

use super::eol::Eol;
use super::printable::Printable;

verus! {

/// The mathematical classification of a byte: an end-of-line marker, a
/// printable symbol (carrying its byte), an unprintable control byte, or a
/// byte beyond the ASCII range.
#[derive(Debug, Clone, Copy, PartialEq, Eq, Structural)]
pub enum ByteClass {
    Eol(Eol),
    Symbol(u8),
    Control(u8),
    High(u8),
}

/// Classifies every byte value: the three end-of-line bytes, the printable
/// range `0x20..=0x7e`, the remaining control bytes (`0x00..=0x1f`, `0x7f`),
/// and everything at `0x80` and above.
pub open spec fn classify(b: u8) -> ByteClass {
    if b == 0x0a {
        ByteClass::Eol(Eol::Lf)
    } else if b == 0x0d {
        ByteClass::Eol(Eol::Cr)
    } else if b == 0x1e {
        ByteClass::Eol(Eol::Rs)
    } else if 0x20 <= b && b <= 0x7e {
        ByteClass::Symbol(b)
    } else if b < 0x20 || b == 0x7f {
        ByteClass::Control(b)
    } else {
        ByteClass::High(b)
    }
}

/// A classified byte as the reader sees it.  Unlike [`ByteClass`] the
/// printable case carries the symbol value used by the field decoders.
#[derive(Debug, Clone, Copy, PartialEq, Eq, Structural)]
pub enum Character {
    Eol(Eol),
    Printable(Printable),
    Unprintable(u8),
    OutOfRange(u8),
}

impl View for Character {
    type V = ByteClass;

    open spec fn view(&self) -> ByteClass {
        match *self {
            Character::Eol(eol) => ByteClass::Eol(eol),
            Character::Printable(p) => ByteClass::Symbol(p@),
            Character::Unprintable(b) => ByteClass::Control(b),
            Character::OutOfRange(b) => ByteClass::High(b),
        }
    }
}

impl Character {
    /// Classifies `byte`; total over all byte values.
    pub fn from_byte(byte: u8) -> (r: Character)
        ensures
            r@ == classify(byte),
    {
        if byte == 0x0a {
            Character::Eol(Eol::Lf)
        } else if byte == 0x0d {
            Character::Eol(Eol::Cr)
        } else if byte == 0x1e {
            Character::Eol(Eol::Rs)
        } else if 0x20 <= byte && byte <= 0x7e {
            Character::Printable(Printable::new(byte))
        } else if byte < 0x20 || byte == 0x7f {
            Character::Unprintable(byte)
        } else {
            Character::OutOfRange(byte)
        }
    }

    /// True iff this is the carriage-return end-of-line marker.
    pub fn is_cr(&self) -> (r: bool)
        ensures
            r == (self@ == ByteClass::Eol(Eol::Cr)),
    {
        match self {
            Character::Eol(eol) => *eol == Eol::Cr,
            _ => false,
        }
    }

    /// True iff this is the record-separator end-of-line marker.
    pub fn is_rs(&self) -> (r: bool)
        ensures
            r == (self@ == ByteClass::Eol(Eol::Rs)),
    {
        match self {
            Character::Eol(eol) => *eol == Eol::Rs,
            _ => false,
        }
    }

    /// True iff this is the line-feed end-of-line marker.
    pub fn is_lf(&self) -> (r: bool)
        ensures
            r == (self@ == ByteClass::Eol(Eol::Lf)),
    {
        match self {
            Character::Eol(eol) => *eol == Eol::Lf,
            _ => false,
        }
    }
}

} // verus!
