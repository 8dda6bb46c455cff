use vstd::prelude::*;

use super::non_zero_digit::NonZeroDigit;
use super::non_zero_digit::spec_non_zero_of_byte;
use super::printable::Printable;

verus! {

/// A decimal digit: zero, or one of the nine non-zero digits.
#[derive(Debug, Clone, Copy, PartialEq, Eq, Structural)]
pub enum Digit {
    Zero,
    NonZero(NonZeroDigit),
}

impl Digit {
    /// The numeric value, between 0 and 9.
    pub open spec fn value(self) -> int {
        match self {
            Digit::Zero => 0,
            Digit::NonZero(d) => d.value(),
        }
    }

    /// The digit `0`.
    pub fn d0() -> (r: Digit)
        ensures
            r == Digit::Zero,
    {
        Digit::Zero
    }

    /// The digit `1`.
    pub fn d1() -> (r: Digit)
        ensures
            r == Digit::NonZero(NonZeroDigit::D1),
    {
        Digit::NonZero(NonZeroDigit::D1)
    }

    /// The digit `2`.
    pub fn d2() -> (r: Digit)
        ensures
            r == Digit::NonZero(NonZeroDigit::D2),
    {
        Digit::NonZero(NonZeroDigit::D2)
    }

    /// The digit `3`.
    pub fn d3() -> (r: Digit)
        ensures
            r == Digit::NonZero(NonZeroDigit::D3),
    {
        Digit::NonZero(NonZeroDigit::D3)
    }

    /// The digit `4`.
    pub fn d4() -> (r: Digit)
        ensures
            r == Digit::NonZero(NonZeroDigit::D4),
    {
        Digit::NonZero(NonZeroDigit::D4)
    }

    /// The digit `5`.
    pub fn d5() -> (r: Digit)
        ensures
            r == Digit::NonZero(NonZeroDigit::D5),
    {
        Digit::NonZero(NonZeroDigit::D5)
    }

    /// The digit `6`.
    pub fn d6() -> (r: Digit)
        ensures
            r == Digit::NonZero(NonZeroDigit::D6),
    {
        Digit::NonZero(NonZeroDigit::D6)
    }

    /// The digit `7`.
    pub fn d7() -> (r: Digit)
        ensures
            r == Digit::NonZero(NonZeroDigit::D7),
    {
        Digit::NonZero(NonZeroDigit::D7)
    }

    /// The digit `8`.
    pub fn d8() -> (r: Digit)
        ensures
            r == Digit::NonZero(NonZeroDigit::D8),
    {
        Digit::NonZero(NonZeroDigit::D8)
    }

    /// The digit `9`.
    pub fn d9() -> (r: Digit)
        ensures
            r == Digit::NonZero(NonZeroDigit::D9),
    {
        Digit::NonZero(NonZeroDigit::D9)
    }

    /// The digit denoted by `printable`, if it is one of `'0'..='9'`.
    pub fn from_printable(printable: Printable) -> (r: Option<Digit>)
        ensures
            r == spec_digit_of_byte(printable@),
    {
        if printable.to_byte() == 0x30 {
            Some(Digit::Zero)
        } else {
            match NonZeroDigit::from_printable(printable) {
                Some(non_zero) => Some(Digit::NonZero(non_zero)),
                None => None,
            }
        }
    }

    /// The non-zero digit inside, if this digit is not zero.
    pub fn to_non_zero(self) -> (r: Option<NonZeroDigit>)
        ensures
            match self {
                Digit::Zero => r is None,
                Digit::NonZero(d) => r == Some(d),
            },
    {
        match self {
            Digit::Zero => None,
            Digit::NonZero(d) => Some(d),
        }
    }

    /// The decimal digits of `int`, most significant first; `0` becomes the
    /// single digit `0`.
    pub fn split(n: u32) -> (r: Vec<Digit>)
        ensures
            n == 0 ==> r@ =~= seq![Digit::Zero],
            n > 0 ==> r@ == dec_digits(n as nat),
    {
        if n == 0 {
            let mut v: Vec<Digit> = Vec::new();
            v.push(Digit::Zero);
            v
        } else {
            split_positive(n)
        }
    }
}

pub(crate) fn split_positive(n: u32) -> (r: Vec<Digit>)
    ensures
        r@ == dec_digits(n as nat),
    decreases n,
{
    if n == 0 {
        Vec::new()
    } else {
        let mut v = split_positive(n / 10);
        v.push(digit_of_val(n % 10));
        v
    }
}

fn digit_of_val(v: u32) -> (r: Digit)
    requires
        v < 10,
    ensures
        r == spec_digit_of_val(v as int),
{
    match v {
        0 => Digit::Zero,
        1 => Digit::NonZero(NonZeroDigit::D1),
        2 => Digit::NonZero(NonZeroDigit::D2),
        3 => Digit::NonZero(NonZeroDigit::D3),
        4 => Digit::NonZero(NonZeroDigit::D4),
        5 => Digit::NonZero(NonZeroDigit::D5),
        6 => Digit::NonZero(NonZeroDigit::D6),
        7 => Digit::NonZero(NonZeroDigit::D7),
        8 => Digit::NonZero(NonZeroDigit::D8),
        _ => Digit::NonZero(NonZeroDigit::D9),
    }
}

/// The digit denoted by byte `b`, if `b` is one of `'0'..='9'`.
pub open spec fn spec_digit_of_byte(b: u8) -> Option<Digit> {
    if b == 0x30 {
        Some(Digit::Zero)
    } else {
        match spec_non_zero_of_byte(b) {
            Some(d) => Some(Digit::NonZero(d)),
            None => None,
        }
    }
}

/// The digit whose numeric value is `v` (0 through 9).
pub open spec fn spec_digit_of_val(v: int) -> Digit {
    if v == 0 {
        Digit::Zero
    } else if v == 1 {
        Digit::NonZero(NonZeroDigit::D1)
    } else if v == 2 {
        Digit::NonZero(NonZeroDigit::D2)
    } else if v == 3 {
        Digit::NonZero(NonZeroDigit::D3)
    } else if v == 4 {
        Digit::NonZero(NonZeroDigit::D4)
    } else if v == 5 {
        Digit::NonZero(NonZeroDigit::D5)
    } else if v == 6 {
        Digit::NonZero(NonZeroDigit::D6)
    } else if v == 7 {
        Digit::NonZero(NonZeroDigit::D7)
    } else if v == 8 {
        Digit::NonZero(NonZeroDigit::D8)
    } else {
        Digit::NonZero(NonZeroDigit::D9)
    }
}

/// The decimal rendering of `n`, most significant digit first; zero renders
/// as the empty sequence.
pub open spec fn dec_digits(n: nat) -> Seq<Digit>
    decreases n,
{
    if n == 0 {
        Seq::empty()
    } else {
        dec_digits(n / 10).push(spec_digit_of_val((n % 10) as int))
    }
}

/// The number denoted by a digit sequence read most significant first.
pub open spec fn digits_value(s: Seq<Digit>) -> int
    decreases s.len(),
{
    if s.len() == 0 {
        0
    } else {
        digits_value(s.drop_last()) * 10 + s.last().value()
    }
}

/// The decimal rendering of `n` denotes `n`.
pub proof fn lemma_dec_digits_value(n: nat)
    ensures
        digits_value(dec_digits(n)) == n,
    decreases n,
{
    if n != 0 {
        lemma_dec_digits_value(n / 10);
        assert(dec_digits(n).drop_last() =~= dec_digits(n / 10));
        assert(spec_digit_of_val((n % 10) as int).value() == n % 10);
        assert(n / 10 * 10 + n % 10 == n) by (nonlinear_arith);
    }
}

/// A rendering never has more digits than the number itself.
pub proof fn lemma_dec_digits_len_bound(n: nat)
    ensures
        dec_digits(n).len() <= n,
    decreases n,
{
    if n > 0 {
        lemma_dec_digits_len_bound(n / 10);
        assert(n / 10 + 1 <= n) by (nonlinear_arith)
            requires
                n >= 1,
        ;
    }
}

/// A positive number's rendering is non-empty and starts with a non-zero
/// digit.
pub proof fn lemma_dec_digits_leading(n: nat)
    ensures
        n > 0 ==> dec_digits(n).len() > 0 && dec_digits(n)[0] != Digit::Zero,
    decreases n,
{
    if n > 0 {
        if n / 10 == 0 {
            assert(n % 10 == n) by (nonlinear_arith)
                requires
                    n / 10 == 0 && n > 0,
            ;
        } else {
            lemma_dec_digits_leading(n / 10);
            assert(dec_digits(n)[0] == dec_digits(n / 10)[0]);
        }
    }
}

} // verus!
