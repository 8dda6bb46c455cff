use vstd::prelude::*;

use super::digit::Digit;
use super::digit::dec_digits;
use super::fixed_natural::FixedNatural;
use super::natural::Natural;
use super::non_zero_digit::NonZeroDigit;

verus! {

/// The model of a fixed-format integer: zero, or the digits of a positive or
/// negative number.
pub enum FortranIntV {
    Zero,
    Positive(Seq<Digit>),
    Negative(Seq<Digit>),
}

/// A legacy fixed-format signed integer of column budget `I`: sign and
/// digits together fit in `I` columns, so a negative value keeps one column
/// fewer for its digits.
#[derive(Debug, PartialEq, Clone)]
pub struct FortranInt<const I: usize> {
    pub kind: Kind<I>,
}

/// The sign and digits of a [`FortranInt`].
#[derive(Debug, PartialEq, Clone)]
pub enum Kind<const I: usize> {
    Positive(FixedNatural<I>),
    Negative(FixedNatural<I>),
    Zero,
}

impl<const I: usize> View for FortranInt<I> {
    type V = FortranIntV;

    open spec fn view(&self) -> FortranIntV {
        match &self.kind {
            Kind::Positive(n) => FortranIntV::Positive(n@),
            Kind::Negative(n) => FortranIntV::Negative(n@),
            Kind::Zero => FortranIntV::Zero,
        }
    }
}

impl<const I: usize> FortranInt<I> {
    /// The positive number `natural`.
    pub fn positive(natural: FixedNatural<I>) -> (r: Option<FortranInt<I>>)
        ensures
            r matches Some(v) && v@ == FortranIntV::Positive(natural@),
    {
        Some(FortranInt { kind: Kind::Positive(natural) })
    }

    /// The negative number with magnitude `natural`; nothing when the
    /// budget cannot hold the sign column beside the digits.
    pub fn negative(natural: FixedNatural<I>) -> (r: Option<FortranInt<I>>)
        requires
            natural.wf(),
        ensures
            1 + natural@.len() > I ==> r is None,
            1 + natural@.len() <= I ==> (r matches Some(v) && v@ == FortranIntV::Negative(
                natural@,
            )),
    {
        if I < 2 {
            None
        } else if natural.width() > I - 1 {
            None
        } else {
            Some(FortranInt { kind: Kind::Negative(natural) })
        }
    }

    /// Zero.
    pub fn zero() -> (r: FortranInt<I>)
        ensures
            r@ == FortranIntV::Zero,
    {
        FortranInt { kind: Kind::Zero }
    }

    /// The integer with value `n`, if its rendering fits the budget — the
    /// sign of a negative value counted as one of its columns.
    pub fn from_int(n: i32) -> (r: Option<FortranInt<I>>)
        ensures
            n == 0 ==> (r matches Some(v) && v@ == FortranIntV::Zero),
            n > 0 && dec_digits(n as nat).len() <= I ==> (r matches Some(v) && v@
                == FortranIntV::Positive(dec_digits(n as nat))),
            n > 0 && dec_digits(n as nat).len() > I ==> r is None,
            n < 0 && 1 + dec_digits((-(n as int)) as nat).len() <= I ==> (r matches Some(v) && v@
                == FortranIntV::Negative(dec_digits((-(n as int)) as nat))),
            n < 0 && 1 + dec_digits((-(n as int)) as nat).len() > I ==> r is None,
    {
        if n == 0 {
            return Some(Self::zero());
        }
        let magnitude: u32 = if n > 0 {
            n as u32
        } else if n == i32::MIN {
            0x8000_0000u32
        } else {
            (-n) as u32
        };
        let natural = match FixedNatural::from_int(magnitude) {
            Some(natural) => natural,
            None => {
                return None;
            },
        };
        if n > 0 {
            Self::positive(natural)
        } else {
            Self::negative(natural)
        }
    }

    /// The one-digit integer `digit`: zero for the zero digit, otherwise a
    /// one-digit positive number, provided the budget holds a column at all.
    pub fn from_digit(digit: Digit) -> (r: Option<FortranInt<I>>)
        ensures
            I == 0 ==> r is None,
            I >= 1 ==> match digit {
                Digit::Zero => r matches Some(v) && v@ == FortranIntV::Zero,
                Digit::NonZero(non_zero) => r matches Some(v) && v@ == FortranIntV::Positive(
                    seq![Digit::NonZero(non_zero)],
                ),
            },
    {
        if I == 0 {
            return None;
        }
        match digit.to_non_zero() {
            Some(non_zero) => {
                let natural = match FixedNatural::from_digit(non_zero) {
                    Some(natural) => natural,
                    None => {
                        return None;
                    },
                };
                Self::positive(natural)
            },
            None => Some(Self::zero()),
        }
    }

    /// The positive number with the given head and tail digits, if it fits
    /// in the budget.
    pub fn from_postitive_parts(head: NonZeroDigit, tail: Vec<Digit>) -> (r: Option<FortranInt<I>>)
        ensures
            1 + tail@.len() > I ==> r is None,
            1 + tail@.len() <= I ==> (r matches Some(v) && v@ == FortranIntV::Positive(
                seq![Digit::NonZero(head)] + tail@,
            )),
    {
        match FixedNatural::new(Natural::new(head, tail)) {
            Some(natural) => Some(FortranInt { kind: Kind::Positive(natural) }),
            None => None,
        }
    }

    /// The negative number with the given head and tail digits of its
    /// magnitude, if it fits in the budget together with its sign.
    pub fn from_negative_parts(head: NonZeroDigit, tail: Vec<Digit>) -> (r: Option<FortranInt<I>>)
        ensures
            2 + tail@.len() > I ==> r is None,
            2 + tail@.len() <= I ==> (r matches Some(v) && v@ == FortranIntV::Negative(
                seq![Digit::NonZero(head)] + tail@,
            )),
    {
        match FixedNatural::new(Natural::new(head, tail)) {
            Some(natural) => Self::negative(natural),
            None => None,
        }
    }
}

} // verus!
