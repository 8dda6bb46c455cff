use vstd::prelude::*;

verus! {

/// The three end-of-line encodings the format accepts: line feed, carriage
/// return, and the legacy record-separator byte.
#[derive(Debug, Clone, Copy, PartialEq, Eq, Structural)]
pub enum Eol {
    Lf,
    Cr,
    Rs,
}

} // verus!
