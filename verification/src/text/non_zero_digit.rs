use vstd::prelude::*;

use super::printable::Printable;

verus! {

/// A non-zero decimal digit, 1 through 9.
#[derive(Debug, Clone, Copy, PartialEq, Eq, Structural)]
pub enum NonZeroDigit {
    D1,
    D2,
    D3,
    D4,
    D5,
    D6,
    D7,
    D8,
    D9,
}

impl NonZeroDigit {
    /// The numeric value, between 1 and 9.
    pub open spec fn value(self) -> int {
        match self {
            NonZeroDigit::D1 => 1,
            NonZeroDigit::D2 => 2,
            NonZeroDigit::D3 => 3,
            NonZeroDigit::D4 => 4,
            NonZeroDigit::D5 => 5,
            NonZeroDigit::D6 => 6,
            NonZeroDigit::D7 => 7,
            NonZeroDigit::D8 => 8,
            NonZeroDigit::D9 => 9,
        }
    }

    /// The digit denoted by `printable`, if it is one of `'1'..='9'`.
    pub fn from_printable(printable: Printable) -> (r: Option<NonZeroDigit>)
        ensures
            r == spec_non_zero_of_byte(printable@),
    {
        match printable.to_byte() {
            0x31 => Some(NonZeroDigit::D1),
            0x32 => Some(NonZeroDigit::D2),
            0x33 => Some(NonZeroDigit::D3),
            0x34 => Some(NonZeroDigit::D4),
            0x35 => Some(NonZeroDigit::D5),
            0x36 => Some(NonZeroDigit::D6),
            0x37 => Some(NonZeroDigit::D7),
            0x38 => Some(NonZeroDigit::D8),
            0x39 => Some(NonZeroDigit::D9),
            _ => None,
        }
    }
}

/// The non-zero digit denoted by byte `b`, if any.
pub open spec fn spec_non_zero_of_byte(b: u8) -> Option<NonZeroDigit> {
    if b == 0x31 {
        Some(NonZeroDigit::D1)
    } else if b == 0x32 {
        Some(NonZeroDigit::D2)
    } else if b == 0x33 {
        Some(NonZeroDigit::D3)
    } else if b == 0x34 {
        Some(NonZeroDigit::D4)
    } else if b == 0x35 {
        Some(NonZeroDigit::D5)
    } else if b == 0x36 {
        Some(NonZeroDigit::D6)
    } else if b == 0x37 {
        Some(NonZeroDigit::D7)
    } else if b == 0x38 {
        Some(NonZeroDigit::D8)
    } else if b == 0x39 {
        Some(NonZeroDigit::D9)
    } else {
        None
    }
}

} // verus!
