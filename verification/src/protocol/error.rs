use vstd::prelude::*;

use crate::text::Printable;
use crate::text::digit_bytes;
use crate::text::non_zero_digit_bytes;

verus! {

/// A failed field-decoding step, naming every symbol that would have been
/// acceptable at the offending position.
#[derive(Debug, PartialEq)]
pub enum Error {
    Character(Vec<Printable>),
}

impl View for Error {
    type V = Seq<u8>;

    /// The bytes of the acceptable symbols.
    open spec fn view(&self) -> Seq<u8> {
        match self {
            Error::Character(v) => v@.map_values(|p: Printable| p@),
        }
    }
}

impl Error {
    /// Any decimal digit was acceptable.
    pub fn digit() -> (r: Error)
        ensures
            r@ == digit_bytes(),
    {
        Error::Character(Printable::digits())
    }

    /// Any non-zero decimal digit was acceptable.
    pub fn non_zero_digit() -> (r: Error)
        ensures
            r@ == non_zero_digit_bytes(),
    {
        Error::Character(Printable::non_zero_digits())
    }

    /// A blank, a minus sign or a non-zero digit was acceptable at the head
    /// of a fixed-width integer.
    pub fn integer_leading() -> (r: Error)
        ensures
            r@ =~= integer_leading_bytes(),
    {
        let mut v: Vec<Printable> = Vec::new();
        v.push(Printable::new(0x20));
        v.push(Printable::new(0x2d));
        let mut ds = Printable::non_zero_digits();
        v.append(&mut ds);
        Error::Character(v)
    }

    /// Only the digits `0` and `1` were acceptable.
    pub fn flag() -> (r: Error)
        ensures
            r@ =~= flag_bytes(),
    {
        let mut v: Vec<Printable> = Vec::new();
        v.push(Printable::new(0x30));
        v.push(Printable::new(0x31));
        Error::Character(v)
    }

    /// Only a blank was acceptable.
    pub fn space() -> (r: Error)
        ensures
            r@ =~= space_bytes(),
    {
        let mut v: Vec<Printable> = Vec::new();
        v.push(Printable::new(0x20));
        Error::Character(v)
    }

    /// Only the digits `2` and `3` were acceptable.
    pub fn two_or_three() -> (r: Error)
        ensures
            r@ =~= two_or_three_bytes(),
    {
        let mut v: Vec<Printable> = Vec::new();
        v.push(Printable::new(0x32));
        v.push(Printable::new(0x33));
        Error::Character(v)
    }

    /// Only the digit `0` was acceptable.
    pub fn zero() -> (r: Error)
        ensures
            r@ =~= zero_bytes(),
    {
        let mut v: Vec<Printable> = Vec::new();
        v.push(Printable::new(0x30));
        Error::Character(v)
    }

    /// Only the letter `V` was acceptable.
    pub fn v() -> (r: Error)
        ensures
            r@ =~= v_bytes(),
    {
        let mut v: Vec<Printable> = Vec::new();
        v.push(Printable::new(0x56));
        Error::Character(v)
    }

    /// Only a decimal point was acceptable.
    pub fn dot() -> (r: Error)
        ensures
            r@ =~= dot_bytes(),
    {
        let mut v: Vec<Printable> = Vec::new();
        v.push(Printable::new(0x2e));
        Error::Character(v)
    }
}

/// Blank, minus, then the nine non-zero digits.
pub open spec fn integer_leading_bytes() -> Seq<u8> {
    seq![0x20u8, 0x2du8] + non_zero_digit_bytes()
}

/// The bytes of `0` and `1`.
pub open spec fn flag_bytes() -> Seq<u8> {
    seq![0x30u8, 0x31u8]
}

/// The byte of the blank symbol.
pub open spec fn space_bytes() -> Seq<u8> {
    seq![0x20u8]
}

/// The bytes of `2` and `3`.
pub open spec fn two_or_three_bytes() -> Seq<u8> {
    seq![0x32u8, 0x33u8]
}

/// The byte of the digit `0`.
pub open spec fn zero_bytes() -> Seq<u8> {
    seq![0x30u8]
}

/// The byte of the letter `V`.
pub open spec fn v_bytes() -> Seq<u8> {
    seq![0x56u8]
}

/// The byte of the decimal point.
pub open spec fn dot_bytes() -> Seq<u8> {
    seq![0x2eu8]
}

} // verus!
