use vstd::prelude::*;

use super::digit::Digit;
use super::fortran_int::FortranInt;
use super::fortran_int::FortranIntV;

verus! {

/// The model of a fixed-format real: the model of its integer part and its
/// fractional digits.
pub struct FortranFloatV {
    pub integer: FortranIntV,
    pub fraction: Seq<Digit>,
}

/// A legacy fixed-format real of column budgets `I` (integer part) and `F`
/// (fractional part): a fixed-format integer and at most `F` fractional
/// digits.
#[derive(Debug, PartialEq, Clone)]
pub struct FortranFloat<const I: usize, const F: usize> {
    pub integer_part: FortranInt<I>,
    pub fractional_part: Vec<Digit>,
}

impl<const I: usize, const F: usize> View for FortranFloat<I, F> {
    type V = FortranFloatV;

    open spec fn view(&self) -> FortranFloatV {
        FortranFloatV { integer: self.integer_part@, fraction: self.fractional_part@ }
    }
}

impl<const I: usize, const F: usize> FortranFloat<I, F> {
    /// The real with the given parts, if the fraction fits in its budget.
    pub fn new(integer_part: FortranInt<I>, fractional_part: Vec<Digit>) -> (r: Option<
        FortranFloat<I, F>,
    >)
        ensures
            fractional_part@.len() > F ==> r is None,
            fractional_part@.len() <= F ==> (r matches Some(v) && v@ == (FortranFloatV {
                integer: integer_part@,
                fraction: fractional_part@,
            })),
    {
        if fractional_part.len() > F {
            None
        } else {
            Some(FortranFloat { integer_part, fractional_part })
        }
    }
}

} // verus!
