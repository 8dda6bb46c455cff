use vstd::prelude::*;

use crate::protocol::Builder;
use crate::protocol::Error;
use crate::protocol::Target;
use crate::protocol::Transition;
use crate::text::Digit;
use crate::text::Printable;
use crate::text::dec_digits;
use crate::text::digit_bytes;
use crate::text::lemma_dec_digits_leading;
use crate::text::non_zero_digit_bytes;
use crate::text::spec_digit_of_byte;

use super::natural::Natural;

verus! {

/// The model of a completed fixed-width count: zero, or the digits of a
/// positive number.
pub enum FixedCountV {
    Zero,
    Natural(Seq<Digit>),
}

/// The model of a count machine state: still consuming blank padding, or
/// accumulating digits after `padding` blanks.
pub enum FixedCountBuilderV {
    Pad(int),
    Count(int, Seq<Digit>),
}

/// What one symbol byte does to a count machine of width `width`.
///
/// Blanks extend the padding but are illegal in the final column; the digit
/// zero is legal only in the final column; a non-zero digit starts (or
/// extends) the accumulated number, which completes exactly when padding and
/// digits together fill the width.
pub open spec fn fixed_count_step(width: int, m: FixedCountBuilderV, c: u8) -> Transition<
    FixedCountBuilderV,
    FixedCountV,
> {
    match m {
        FixedCountBuilderV::Pad(padding) => {
            if c == 0x20 {
                if padding + 1 == width {
                    Transition::Fail(digit_bytes())
                } else {
                    Transition::Next(FixedCountBuilderV::Pad(padding + 1))
                }
            } else {
                match spec_digit_of_byte(c) {
                    Some(Digit::Zero) => {
                        if padding + 1 == width {
                            Transition::Done(FixedCountV::Zero)
                        } else {
                            Transition::Fail(non_zero_digit_bytes())
                        }
                    },
                    Some(Digit::NonZero(non_zero)) => {
                        if padding + 1 == width {
                            Transition::Done(
                                FixedCountV::Natural(seq![Digit::NonZero(non_zero)]),
                            )
                        } else {
                            Transition::Next(
                                FixedCountBuilderV::Count(
                                    padding,
                                    seq![Digit::NonZero(non_zero)],
                                ),
                            )
                        }
                    },
                    None => Transition::Fail(digit_bytes()),
                }
            }
        },
        FixedCountBuilderV::Count(padding, ds) => {
            match spec_digit_of_byte(c) {
                Some(digit) => {
                    if padding + ds.len() + 1 == width {
                        Transition::Done(FixedCountV::Natural(ds.push(digit)))
                    } else {
                        Transition::Next(FixedCountBuilderV::Count(padding, ds.push(digit)))
                    }
                },
                None => Transition::Fail(digit_bytes()),
            }
        },
    }
}

/// The product a count machine of width `width` yields at end of input: only
/// an accumulating state whose padding and digits exactly fill the width is
/// accepting.
pub open spec fn fixed_count_finish(width: int, m: FixedCountBuilderV) -> Option<FixedCountV> {
    match m {
        FixedCountBuilderV::Pad(_) => None,
        FixedCountBuilderV::Count(padding, ds) => {
            if padding + ds.len() == width {
                Some(FixedCountV::Natural(ds))
            } else {
                None
            }
        },
    }
}

/// A non-negative count occupying exactly `I` columns: blank padding
/// followed by zero or by a number with no leading zero.
#[derive(Debug, PartialEq)]
pub enum FixedCount<const I: usize> {
    Zero,
    Natural(Natural),
}

impl<const I: usize> View for FixedCount<I> {
    type V = FixedCountV;

    open spec fn view(&self) -> FixedCountV {
        match self {
            FixedCount::Zero => FixedCountV::Zero,
            FixedCount::Natural(n) => FixedCountV::Natural(n@),
        }
    }
}

impl<const I: usize> FixedCount<I> {
    /// A fresh decoding machine for a count of width `I`.
    pub fn start() -> (r: FixedCountBuilder<I>)
        requires
            I >= 1,
        ensures
            r.inv(),
            r.model() == FixedCountBuilderV::Pad(0),
    {
        FixedCountBuilder::<I>::Pad(0)
    }

    /// The count with value `n`, if its rendering fits in `I` digits.
    pub fn from_int(n: u32) -> (r: Option<FixedCount<I>>)
        ensures
            n == 0 ==> r == Some(FixedCount::<I>::Zero),
            n > 0 && dec_digits(n as nat).len() <= I ==> (r matches Some(count) && count@
                == FixedCountV::Natural(dec_digits(n as nat))),
            n > 0 && dec_digits(n as nat).len() > I ==> r is None,
    {
        if n == 0 {
            Some(FixedCount::Zero)
        } else {
            proof {
                lemma_dec_digits_leading(n as nat);
                crate::text::lemma_dec_digits_len_bound(n as nat);
            }
            let natural = match Natural::from_int(n) {
                Some(natural) => natural,
                None => {
                    return None;
                },
            };
            if natural.len() > I {
                None
            } else {
                Some(FixedCount::Natural(natural))
            }
        }
    }
}

/// The decoding state machine for [`FixedCount`].
#[derive(Debug, PartialEq)]
pub enum FixedCountBuilder<const I: usize> {
    Pad(usize),
    Count(usize, Natural),
}

impl<const I: usize> Builder for FixedCountBuilder<I> {
    type Product = FixedCount<I>;

    type StateModel = FixedCountBuilderV;

    type ProductModel = FixedCountV;

    open spec fn inv(&self) -> bool {
        match self {
            FixedCountBuilder::Pad(padding) => *padding < I,
            FixedCountBuilder::Count(padding, natural) => natural@.len() >= 1 && *padding
                + natural@.len() < I,
        }
    }

    open spec fn model(&self) -> FixedCountBuilderV {
        match self {
            FixedCountBuilder::Pad(padding) => FixedCountBuilderV::Pad(*padding as int),
            FixedCountBuilder::Count(padding, natural) => FixedCountBuilderV::Count(
                *padding as int,
                natural@,
            ),
        }
    }

    open spec fn product_model(product: &FixedCount<I>) -> FixedCountV {
        product@
    }

    open spec fn spec_step(m: FixedCountBuilderV, symbol: u8) -> Transition<
        FixedCountBuilderV,
        FixedCountV,
    > {
        fixed_count_step(I as int, m, symbol)
    }

    open spec fn spec_finish(m: FixedCountBuilderV) -> Option<FixedCountV> {
        fixed_count_finish(I as int, m)
    }

    fn push(self, printable: Printable) -> (r: Result<
        Target<FixedCount<I>, FixedCountBuilder<I>>,
        Error,
    >) {
        match self {
            FixedCountBuilder::Pad(padding) => {
                if printable.to_byte() == 0x20 {
                    if padding == I - 1 {
                        Err(Error::digit())
                    } else {
                        Ok(Target::Builder(FixedCountBuilder::Pad(padding + 1)))
                    }
                } else {
                    match Digit::from_printable(printable) {
                        Some(Digit::Zero) => {
                            if padding == I - 1 {
                                Ok(Target::Product(FixedCount::Zero))
                            } else {
                                Err(Error::non_zero_digit())
                            }
                        },
                        Some(Digit::NonZero(non_zero)) => {
                            if padding == I - 1 {
                                Ok(Target::Product(FixedCount::Natural(Natural::new(non_zero))))
                            } else {
                                Ok(
                                    Target::Builder(
                                        FixedCountBuilder::Count(padding, Natural::new(non_zero)),
                                    ),
                                )
                            }
                        },
                        None => Err(Error::digit()),
                    }
                }
            },
            FixedCountBuilder::Count(padding, mut natural) => {
                match Digit::from_printable(printable) {
                    Some(digit) => {
                        natural.push(digit);
                        if natural.len() == I - padding {
                            Ok(Target::Product(FixedCount::Natural(natural)))
                        } else {
                            Ok(Target::Builder(FixedCountBuilder::Count(padding, natural)))
                        }
                    },
                    None => Err(Error::digit()),
                }
            },
        }
    }

    fn done(self) -> (r: Option<FixedCount<I>>) {
        match self {
            FixedCountBuilder::Pad(_) => None,
            FixedCountBuilder::Count(padding, natural) => {
                if natural.len() == I - padding {
                    Some(FixedCount::Natural(natural))
                } else {
                    None
                }
            },
        }
    }
}

} // verus!
