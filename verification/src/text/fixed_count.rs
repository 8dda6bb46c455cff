use vstd::prelude::*;

use super::digit::Digit;
use super::digit::dec_digits;
use super::fixed_natural::FixedNatural;
use super::natural::Natural;
use super::natural::permissive_digits;

verus! {

/// A non-negative count of column budget `I`, read permissively: zero (also
/// when every digit is zero), or a positive number whose digits fit in `I`
/// columns.
#[derive(Debug, PartialEq, Clone)]
pub enum FixedCount<const I: usize> {
    Positive(FixedNatural<I>),
    Zero,
}

impl<const I: usize> FixedCount<I> {
    /// The count with value `n`, if its rendering fits in the budget.
    pub fn from_int(n: u32) -> (r: Option<FixedCount<I>>)
        ensures
            n == 0 ==> r == Some(FixedCount::<I>::Zero),
            n > 0 && dec_digits(n as nat).len() <= I ==> (r matches Some(
                FixedCount::<I>::Positive(f),
            ) && f@ == dec_digits(n as nat)),
            n > 0 && dec_digits(n as nat).len() > I ==> r is None,
    {
        if n == 0 {
            Some(FixedCount::Zero)
        } else {
            match FixedNatural::from_int(n) {
                Some(f) => Some(FixedCount::Positive(f)),
                None => None,
            }
        }
    }

    /// The permissive reading of `digits`: nothing from an empty sequence;
    /// zero from an all-zero one; otherwise the digits from the first
    /// non-zero digit on, provided they fit in the budget.
    pub fn from_digits(digits: Vec<Digit>) -> (r: Option<FixedCount<I>>)
        ensures
            digits@.len() == 0 ==> r is None,
            digits@.len() > 0 && permissive_digits(digits@) is None ==> r == Some(
                FixedCount::<I>::Zero,
            ),
            digits@.len() > 0 && (permissive_digits(digits@) matches Some(ds)) ==> (
            if permissive_digits(digits@).unwrap().len() <= I {
                r matches Some(FixedCount::<I>::Positive(f)) && f@ == permissive_digits(
                    digits@,
                ).unwrap()
            } else {
                r is None
            }),
    {
        if digits.len() == 0 {
            return None;
        }

        let natural = match Natural::from_digits(digits) {
            Some(natural) => natural,
            None => {
                return Some(FixedCount::Zero);
            },
        };

        match FixedNatural::new(natural) {
            Some(fixed_natural) => Some(FixedCount::Positive(fixed_natural)),
            None => None,
        }
    }

    /// Zero.
    pub fn zero() -> (r: FixedCount<I>)
        ensures
            r == FixedCount::<I>::Zero,
    {
        FixedCount::Zero
    }
}

} // verus!
