use vstd::prelude::*;

use crate::protocol::Builder;
use crate::protocol::Error;
use crate::protocol::Target;
use crate::protocol::Transition;
use crate::protocol::integer_leading_bytes;
use crate::text::Digit;
use crate::text::NonZeroDigit;
use crate::text::Printable;
use crate::text::dec_digits;
use crate::text::digit_bytes;
use crate::text::non_zero_digit_bytes;
use crate::text::spec_digit_of_byte;
use crate::text::spec_non_zero_of_byte;

use super::natural::Natural;

verus! {

/// The model of a completed fixed-width signed integer: zero, or the digits
/// of a positive or negative number.
pub enum FixedIntegerV {
    Zero,
    Positive(Seq<Digit>),
    Negative(Seq<Digit>),
}

/// The model of an integer machine state: consuming blank padding, having
/// just seen a minus sign, or accumulating the digits of a negative or
/// positive number after `padding` blanks.
pub enum FixedIntegerBuilderV {
    Pad(int),
    Minus(int),
    Negative(int, Seq<Digit>),
    Positive(int, Seq<Digit>),
}

/// What one symbol byte does to an integer machine of width `width`.
///
/// Blank padding and a minus sign are legal only before the final column;
/// the final column alone may hold the digit zero; after a minus sign only a
/// non-zero digit may follow, and the sign itself consumes one column of the
/// width.
pub open spec fn fixed_integer_step(width: int, m: FixedIntegerBuilderV, c: u8) -> Transition<
    FixedIntegerBuilderV,
    FixedIntegerV,
> {
    match m {
        FixedIntegerBuilderV::Pad(padding) => {
            if padding + 1 == width {
                if c == 0x30 {
                    Transition::Done(FixedIntegerV::Zero)
                } else {
                    match spec_non_zero_of_byte(c) {
                        Some(non_zero) => Transition::Done(
                            FixedIntegerV::Positive(seq![Digit::NonZero(non_zero)]),
                        ),
                        None => Transition::Fail(digit_bytes()),
                    }
                }
            } else {
                if c == 0x20 {
                    Transition::Next(FixedIntegerBuilderV::Pad(padding + 1))
                } else if c == 0x2d {
                    Transition::Next(FixedIntegerBuilderV::Minus(padding))
                } else {
                    match spec_non_zero_of_byte(c) {
                        Some(non_zero) => Transition::Next(
                            FixedIntegerBuilderV::Positive(
                                padding,
                                seq![Digit::NonZero(non_zero)],
                            ),
                        ),
                        None => Transition::Fail(integer_leading_bytes()),
                    }
                }
            }
        },
        FixedIntegerBuilderV::Minus(padding) => {
            match spec_non_zero_of_byte(c) {
                Some(non_zero) => {
                    if padding + 2 == width {
                        Transition::Done(FixedIntegerV::Negative(seq![Digit::NonZero(non_zero)]))
                    } else {
                        Transition::Next(
                            FixedIntegerBuilderV::Negative(
                                padding,
                                seq![Digit::NonZero(non_zero)],
                            ),
                        )
                    }
                },
                None => Transition::Fail(non_zero_digit_bytes()),
            }
        },
        FixedIntegerBuilderV::Negative(padding, ds) => {
            match spec_digit_of_byte(c) {
                Some(digit) => {
                    if 1 + padding + ds.len() + 1 == width {
                        Transition::Done(FixedIntegerV::Negative(ds.push(digit)))
                    } else {
                        Transition::Next(FixedIntegerBuilderV::Negative(padding, ds.push(digit)))
                    }
                },
                None => Transition::Fail(digit_bytes()),
            }
        },
        FixedIntegerBuilderV::Positive(padding, ds) => {
            match spec_digit_of_byte(c) {
                Some(digit) => {
                    if padding + ds.len() + 1 == width {
                        Transition::Done(FixedIntegerV::Positive(ds.push(digit)))
                    } else {
                        Transition::Next(FixedIntegerBuilderV::Positive(padding, ds.push(digit)))
                    }
                },
                None => Transition::Fail(digit_bytes()),
            }
        },
    }
}

/// The product an integer machine of width `width` yields at end of input:
/// only an accumulating state whose padding, sign and digits exactly fill
/// the width is accepting.
pub open spec fn fixed_integer_finish(width: int, m: FixedIntegerBuilderV) -> Option<
    FixedIntegerV,
> {
    match m {
        FixedIntegerBuilderV::Negative(padding, ds) => {
            if padding + 1 + ds.len() == width {
                Some(FixedIntegerV::Negative(ds))
            } else {
                None
            }
        },
        FixedIntegerBuilderV::Positive(padding, ds) => {
            if padding + ds.len() == width {
                Some(FixedIntegerV::Positive(ds))
            } else {
                None
            }
        },
        _ => None,
    }
}

/// A signed integer whose printed form occupies exactly `I` columns,
/// counting blank padding and any minus sign.
#[derive(Debug, PartialEq)]
pub enum FixedInteger<const I: usize> {
    Zero,
    Positive(Natural),
    Negative(Natural),
}

impl<const I: usize> View for FixedInteger<I> {
    type V = FixedIntegerV;

    open spec fn view(&self) -> FixedIntegerV {
        match self {
            FixedInteger::Zero => FixedIntegerV::Zero,
            FixedInteger::Positive(n) => FixedIntegerV::Positive(n@),
            FixedInteger::Negative(n) => FixedIntegerV::Negative(n@),
        }
    }
}

impl<const I: usize> FixedInteger<I> {
    /// A fresh decoding machine for an integer of width `I`.
    pub fn start() -> (r: FixedIntegerBuilder<I>)
        requires
            I >= 1,
        ensures
            r.inv(),
            r.model() == FixedIntegerBuilderV::Pad(0),
    {
        FixedIntegerBuilder::<I>::Pad(0)
    }

    /// The integer with value `n`, if its rendering — sign column included —
    /// fits in `I` columns.
    pub fn from_int(n: i32) -> (r: Option<FixedInteger<I>>)
        ensures
            n == 0 ==> r == Some(FixedInteger::<I>::Zero),
            n > 0 && dec_digits(n as nat).len() <= I ==> (r matches Some(v) && v@
                == FixedIntegerV::Positive(dec_digits(n as nat))),
            n > 0 && dec_digits(n as nat).len() > I ==> r is None,
            n < 0 && 1 + dec_digits((-(n as int)) as nat).len() <= I ==> (r matches Some(v) && v@
                == FixedIntegerV::Negative(dec_digits((-(n as int)) as nat))),
            n < 0 && 1 + dec_digits((-(n as int)) as nat).len() > I ==> r is None,
    {
        if n == 0 {
            Some(FixedInteger::Zero)
        } else if n > 0 {
            proof {
                crate::text::lemma_dec_digits_len_bound(n as nat);
            }
            let natural = match Natural::from_int(n as u32) {
                Some(natural) => natural,
                None => {
                    return None;
                },
            };
            if natural.len() > I {
                None
            } else {
                Some(FixedInteger::Positive(natural))
            }
        } else {
            let magnitude: u32 = if n == i32::MIN {
                0x8000_0000u32
            } else {
                (-n) as u32
            };
            proof {
                crate::text::lemma_dec_digits_len_bound(magnitude as nat);
            }
            let natural = match Natural::from_int(magnitude) {
                Some(natural) => natural,
                None => {
                    return None;
                },
            };
            if I == 0 || natural.len() > I - 1 {
                None
            } else {
                Some(FixedInteger::Negative(natural))
            }
        }
    }
}

/// The decoding state machine for [`FixedInteger`].
#[derive(Debug, PartialEq)]
pub enum FixedIntegerBuilder<const I: usize> {
    Pad(usize),
    Minus(usize),
    Negative(usize, Natural),
    Positive(usize, Natural),
}

impl<const I: usize> FixedIntegerBuilder<I> {
    /// A fresh machine, in its padding state.
    pub fn new() -> (r: FixedIntegerBuilder<I>)
        requires
            I >= 1,
        ensures
            r.inv(),
            r.model() == FixedIntegerBuilderV::Pad(0),
    {
        FixedIntegerBuilder::<I>::Pad(0)
    }
}

impl<const I: usize> Builder for FixedIntegerBuilder<I> {
    type Product = FixedInteger<I>;

    type StateModel = FixedIntegerBuilderV;

    type ProductModel = FixedIntegerV;

    open spec fn inv(&self) -> bool {
        match self {
            FixedIntegerBuilder::Pad(padding) => *padding < I,
            FixedIntegerBuilder::Minus(padding) => *padding + 1 < I,
            FixedIntegerBuilder::Negative(padding, natural) => natural@.len() >= 1 && *padding + 1
                + natural@.len() < I,
            FixedIntegerBuilder::Positive(padding, natural) => natural@.len() >= 1 && *padding
                + natural@.len() < I,
        }
    }

    open spec fn model(&self) -> FixedIntegerBuilderV {
        match self {
            FixedIntegerBuilder::Pad(padding) => FixedIntegerBuilderV::Pad(*padding as int),
            FixedIntegerBuilder::Minus(padding) => FixedIntegerBuilderV::Minus(*padding as int),
            FixedIntegerBuilder::Negative(padding, natural) => FixedIntegerBuilderV::Negative(
                *padding as int,
                natural@,
            ),
            FixedIntegerBuilder::Positive(padding, natural) => FixedIntegerBuilderV::Positive(
                *padding as int,
                natural@,
            ),
        }
    }

    open spec fn product_model(product: &FixedInteger<I>) -> FixedIntegerV {
        product@
    }

    open spec fn spec_step(m: FixedIntegerBuilderV, symbol: u8) -> Transition<
        FixedIntegerBuilderV,
        FixedIntegerV,
    > {
        fixed_integer_step(I as int, m, symbol)
    }

    open spec fn spec_finish(m: FixedIntegerBuilderV) -> Option<FixedIntegerV> {
        fixed_integer_finish(I as int, m)
    }

    fn push(self, printable: Printable) -> (r: Result<
        Target<FixedInteger<I>, FixedIntegerBuilder<I>>,
        Error,
    >) {
        match self {
            FixedIntegerBuilder::Pad(padding) => {
                if padding == I - 1 {
                    if printable.to_byte() == 0x30 {
                        Ok(Target::Product(FixedInteger::Zero))
                    } else {
                        match NonZeroDigit::from_printable(printable) {
                            Some(non_zero) => Ok(
                                Target::Product(FixedInteger::Positive(Natural::new(non_zero))),
                            ),
                            None => Err(Error::digit()),
                        }
                    }
                } else {
                    if printable.to_byte() == 0x20 {
                        Ok(Target::Builder(FixedIntegerBuilder::Pad(padding + 1)))
                    } else if printable.to_byte() == 0x2d {
                        Ok(Target::Builder(FixedIntegerBuilder::Minus(padding)))
                    } else {
                        match NonZeroDigit::from_printable(printable) {
                            Some(non_zero) => Ok(
                                Target::Builder(
                                    FixedIntegerBuilder::Positive(
                                        padding,
                                        Natural::new(non_zero),
                                    ),
                                ),
                            ),
                            None => Err(Error::integer_leading()),
                        }
                    }
                }
            },
            FixedIntegerBuilder::Minus(padding) => {
                match NonZeroDigit::from_printable(printable) {
                    Some(non_zero) => {
                        let natural = Natural::new(non_zero);
                        if padding == I - 2 {
                            Ok(Target::Product(FixedInteger::Negative(natural)))
                        } else {
                            Ok(Target::Builder(FixedIntegerBuilder::Negative(padding, natural)))
                        }
                    },
                    None => Err(Error::non_zero_digit()),
                }
            },
            FixedIntegerBuilder::Negative(padding, mut natural) => {
                match Digit::from_printable(printable) {
                    Some(digit) => {
                        natural.push(digit);
                        if natural.len() == I - padding - 1 {
                            Ok(Target::Product(FixedInteger::Negative(natural)))
                        } else {
                            Ok(Target::Builder(FixedIntegerBuilder::Negative(padding, natural)))
                        }
                    },
                    None => Err(Error::digit()),
                }
            },
            FixedIntegerBuilder::Positive(padding, mut natural) => {
                match Digit::from_printable(printable) {
                    Some(digit) => {
                        natural.push(digit);
                        if natural.len() == I - padding {
                            Ok(Target::Product(FixedInteger::Positive(natural)))
                        } else {
                            Ok(Target::Builder(FixedIntegerBuilder::Positive(padding, natural)))
                        }
                    },
                    None => Err(Error::digit()),
                }
            },
        }
    }

    fn done(self) -> (r: Option<FixedInteger<I>>) {
        match self {
            FixedIntegerBuilder::Negative(padding, natural) => {
                if natural.len() == I - padding - 1 {
                    Some(FixedInteger::Negative(natural))
                } else {
                    None
                }
            },
            FixedIntegerBuilder::Positive(padding, natural) => {
                if natural.len() == I - padding {
                    Some(FixedInteger::Positive(natural))
                } else {
                    None
                }
            },
            _ => None,
        }
    }
}

} // verus!
