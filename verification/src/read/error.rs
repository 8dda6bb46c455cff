use vstd::prelude::*;

use crate::text::Printable;

verus! {

/// The model of a reader failure, with positions as unbounded integers and
/// acceptable-symbol sets as byte sequences.
pub enum ErrorV {
    Character(int, int, Seq<u8>),
    Eof(int),
    Eol(int),
    Overflow(int, int),
    Unprintable(int, int, u8),
    OutOfRange(int, int, u8),
    Forbidden(int, int, int),
}

/// A structured reader failure.  Rows and columns are zero-based; a column
/// counts the symbols already consumed on the current line, so a reported
/// position always names the first offending byte.
#[derive(Debug, PartialEq)]
pub enum Error {
    /// A wrong symbol at (row, column), with every acceptable alternative.
    Character(usize, usize, Vec<Printable>),
    /// The input ended while a field on this row still needed symbols.
    Eof(usize),
    /// The line ended while a field on this row still needed symbols.
    Eol(usize),
    /// Printable content at (row, column) where the field or line had ended.
    Overflow(usize, usize),
    /// A control byte at (row, column) where a symbol or boundary was
    /// expected.
    Unprintable(usize, usize, u8),
    /// A byte beyond the ASCII range at (row, column).
    OutOfRange(usize, usize, u8),
    /// A forbidden token matched on this row; the span gives the columns it
    /// covers, start inclusive and end exclusive.
    Forbidden(usize, usize, usize),
}

impl View for Error {
    type V = ErrorV;

    open spec fn view(&self) -> ErrorV {
        match self {
            Error::Character(row, col, allowed) => ErrorV::Character(
                *row as int,
                *col as int,
                allowed@.map_values(|p: Printable| p@),
            ),
            Error::Eof(row) => ErrorV::Eof(*row as int),
            Error::Eol(row) => ErrorV::Eol(*row as int),
            Error::Overflow(row, col) => ErrorV::Overflow(*row as int, *col as int),
            Error::Unprintable(row, col, byte) => ErrorV::Unprintable(
                *row as int,
                *col as int,
                *byte,
            ),
            Error::OutOfRange(row, col, byte) => ErrorV::OutOfRange(
                *row as int,
                *col as int,
                *byte,
            ),
            Error::Forbidden(row, start, end) => ErrorV::Forbidden(
                *row as int,
                *start as int,
                *end as int,
            ),
        }
    }
}

} // verus!
