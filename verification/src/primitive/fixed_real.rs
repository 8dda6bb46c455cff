use vstd::prelude::*;

use crate::protocol::Builder;
use crate::protocol::Error;
use crate::protocol::Target;
use crate::protocol::Transition;
use crate::protocol::dot_bytes;
use crate::text::Digit;
use crate::text::Printable;
use crate::text::digit_bytes;
use crate::text::spec_digit_of_byte;

use super::fixed_integer::FixedInteger;
use super::fixed_integer::FixedIntegerBuilder;
use super::fixed_integer::FixedIntegerBuilderV;
use super::fixed_integer::FixedIntegerV;
use super::fixed_integer::fixed_integer_step;

verus! {

/// The model of a completed fixed-point real: its integer part and exactly
/// the fractional digits that were read.
pub struct FixedRealV {
    pub integer: FixedIntegerV,
    pub fraction: Seq<Digit>,
}

/// The model of a real machine state: inside the integer part, expecting the
/// literal decimal point, or accumulating fractional digits.
pub enum FixedRealBuilderV {
    IntegerPart(FixedIntegerBuilderV),
    Decimal(FixedIntegerV),
    FractionalPart(FixedIntegerV, Seq<Digit>),
}

/// What one symbol byte does to a real machine of widths `width_i` (integer
/// part) and `width_f` (fractional part).
///
/// The integer part behaves exactly as a fixed-width integer of width
/// `width_i`; on its completion a literal decimal point is mandatory; then
/// exactly `width_f` digits — zero now legal anywhere — complete the field.
pub open spec fn fixed_real_step(
    width_i: int,
    width_f: int,
    m: FixedRealBuilderV,
    c: u8,
) -> Transition<FixedRealBuilderV, FixedRealV> {
    match m {
        FixedRealBuilderV::IntegerPart(im) => {
            match fixed_integer_step(width_i, im, c) {
                Transition::Next(im2) => Transition::Next(FixedRealBuilderV::IntegerPart(im2)),
                Transition::Done(fi) => Transition::Next(FixedRealBuilderV::Decimal(fi)),
                Transition::Fail(allowed) => Transition::Fail(allowed),
            }
        },
        FixedRealBuilderV::Decimal(fi) => {
            if c == 0x2e {
                Transition::Next(FixedRealBuilderV::FractionalPart(fi, Seq::empty()))
            } else {
                Transition::Fail(dot_bytes())
            }
        },
        FixedRealBuilderV::FractionalPart(fi, ds) => {
            match spec_digit_of_byte(c) {
                Some(digit) => {
                    if ds.len() + 1 == width_f {
                        Transition::Done(FixedRealV { integer: fi, fraction: ds.push(digit) })
                    } else {
                        Transition::Next(FixedRealBuilderV::FractionalPart(fi, ds.push(digit)))
                    }
                },
                None => Transition::Fail(digit_bytes()),
            }
        },
    }
}

/// The product a real machine yields at end of input: only a fractional
/// state holding exactly `width_f` digits is accepting.
pub open spec fn fixed_real_finish(width_f: int, m: FixedRealBuilderV) -> Option<FixedRealV> {
    match m {
        FixedRealBuilderV::FractionalPart(fi, ds) => {
            if ds.len() == width_f {
                Some(FixedRealV { integer: fi, fraction: ds })
            } else {
                None
            }
        },
        _ => None,
    }
}

/// A fixed-point real: a fixed-width integer of width `I`, a literal
/// decimal point, and exactly `F` fractional digits — `I + 1 + F` columns in
/// all.
#[derive(Debug, PartialEq)]
pub struct FixedReal<const I: usize, const F: usize>(pub FixedInteger<I>, pub Vec<Digit>);

impl<const I: usize, const F: usize> View for FixedReal<I, F> {
    type V = FixedRealV;

    open spec fn view(&self) -> FixedRealV {
        FixedRealV { integer: self.0@, fraction: self.1@ }
    }
}

impl<const I: usize, const F: usize> FixedReal<I, F> {
    /// A fresh decoding machine for a real of widths `I` and `F`.
    pub fn start() -> (r: FixedRealBuilder<I, F>)
        requires
            I >= 1,
            F >= 1,
        ensures
            r.inv(),
            r.model() == FixedRealBuilderV::IntegerPart(FixedIntegerBuilderV::Pad(0)),
    {
        FixedRealBuilder::IntegerPart(FixedIntegerBuilder::new())
    }
}

/// The decoding state machine for [`FixedReal`].
#[derive(Debug, PartialEq)]
pub enum FixedRealBuilder<const I: usize, const F: usize> {
    IntegerPart(FixedIntegerBuilder<I>),
    Decimal(FixedInteger<I>),
    FractionalPart(FixedInteger<I>, Vec<Digit>),
}

impl<const I: usize, const F: usize> Builder for FixedRealBuilder<I, F> {
    type Product = FixedReal<I, F>;

    type StateModel = FixedRealBuilderV;

    type ProductModel = FixedRealV;

    open spec fn inv(&self) -> bool {
        F >= 1 && match self {
            FixedRealBuilder::IntegerPart(b) => b.inv(),
            FixedRealBuilder::Decimal(_) => true,
            FixedRealBuilder::FractionalPart(_, ds) => ds@.len() < F,
        }
    }

    open spec fn model(&self) -> FixedRealBuilderV {
        match self {
            FixedRealBuilder::IntegerPart(b) => FixedRealBuilderV::IntegerPart(b.model()),
            FixedRealBuilder::Decimal(fi) => FixedRealBuilderV::Decimal(fi@),
            FixedRealBuilder::FractionalPart(fi, ds) => FixedRealBuilderV::FractionalPart(
                fi@,
                ds@,
            ),
        }
    }

    open spec fn product_model(product: &FixedReal<I, F>) -> FixedRealV {
        product@
    }

    open spec fn spec_step(m: FixedRealBuilderV, symbol: u8) -> Transition<
        FixedRealBuilderV,
        FixedRealV,
    > {
        fixed_real_step(I as int, F as int, m, symbol)
    }

    open spec fn spec_finish(m: FixedRealBuilderV) -> Option<FixedRealV> {
        fixed_real_finish(F as int, m)
    }

    fn push(self, printable: Printable) -> (r: Result<
        Target<FixedReal<I, F>, FixedRealBuilder<I, F>>,
        Error,
    >) {
        match self {
            FixedRealBuilder::IntegerPart(builder) => {
                match builder.push(printable)? {
                    Target::Builder(builder) => Ok(
                        Target::Builder(FixedRealBuilder::IntegerPart(builder)),
                    ),
                    Target::Product(fixed_integer) => Ok(
                        Target::Builder(FixedRealBuilder::Decimal(fixed_integer)),
                    ),
                }
            },
            FixedRealBuilder::Decimal(fixed_integer) => {
                if printable.to_byte() == 0x2e {
                    Ok(Target::Builder(FixedRealBuilder::FractionalPart(fixed_integer, Vec::new())))
                } else {
                    Err(Error::dot())
                }
            },
            FixedRealBuilder::FractionalPart(fixed_integer, mut digits) => {
                match Digit::from_printable(printable) {
                    Some(digit) => {
                        digits.push(digit);
                        if digits.len() == F {
                            Ok(Target::Product(FixedReal(fixed_integer, digits)))
                        } else {
                            Ok(
                                Target::Builder(
                                    FixedRealBuilder::FractionalPart(fixed_integer, digits),
                                ),
                            )
                        }
                    },
                    None => Err(Error::digit()),
                }
            },
        }
    }

    fn done(self) -> (r: Option<FixedReal<I, F>>) {
        match self {
            FixedRealBuilder::FractionalPart(fixed_integer, digits) => {
                if digits.len() == F {
                    Some(FixedReal(fixed_integer, digits))
                } else {
                    None
                }
            },
            _ => None,
        }
    }
}

} // verus!
