use vstd::prelude::*;

use super::digit::Digit;
use super::digit::dec_digits;
use super::digit::lemma_dec_digits_leading;
use super::digit::lemma_dec_digits_len_bound;
use super::digit::split_positive;
use super::natural::Natural;
use super::non_zero_digit::NonZeroDigit;

verus! {

/// A permissively-read positive number whose digit count fits in `I`
/// columns.
#[derive(Debug, PartialEq, Clone)]
pub struct FixedNatural<const I: usize>(Natural);

impl<const I: usize> View for FixedNatural<I> {
    type V = Seq<Digit>;

    closed spec fn view(&self) -> Seq<Digit> {
        self.0@
    }
}

impl<const I: usize> FixedNatural<I> {
    /// Validity: the digits fit in the column budget.  Every constructor
    /// establishes it.
    pub open spec fn wf(&self) -> bool {
        1 <= self@.len() <= I
    }

    /// How many digit columns the number occupies.
    pub fn width(&self) -> (r: usize)
        requires
            self.wf(),
        ensures
            r == self@.len(),
    {
        self.0.width()
    }

    /// Bounds `natural` to `I` columns: nothing if it is wider.
    pub fn new(natural: Natural) -> (r: Option<FixedNatural<I>>)
        ensures
            natural@.len() > I ==> r is None,
            natural@.len() <= I ==> (r matches Some(f) && f@ == natural@ && f.wf()),
    {
        if I == 0 {
            return None;
        }
        if natural.tail.len() > I - 1 {
            None
        } else {
            Some(FixedNatural(natural))
        }
    }

    /// The one-digit number `head`; nothing when even one column is too
    /// many.
    pub fn from_digit(head: NonZeroDigit) -> (r: Option<FixedNatural<I>>)
        ensures
            I == 0 ==> r is None,
            I >= 1 ==> (r matches Some(f) && f@ == seq![Digit::NonZero(head)] && f.wf()),
    {
        if I == 0 {
            None
        } else {
            Self::new(Natural::from_digit(head))
        }
    }

    /// The number with value `n`, if it is positive and its rendering fits
    /// in `I` columns.
    pub fn from_int(n: u32) -> (r: Option<FixedNatural<I>>)
        ensures
            n == 0 ==> r is None,
            n > 0 && dec_digits(n as nat).len() <= I ==> (r matches Some(f) && f@ == dec_digits(
                n as nat,
            ) && f.wf()),
            n > 0 && dec_digits(n as nat).len() > I ==> r is None,
    {
        proof {
            lemma_dec_digits_leading(n as nat);
            lemma_dec_digits_len_bound(n as nat);
        }
        let mut ds = digits(n);
        if ds.len() == 0 {
            return None;
        }
        let head = ds.remove(0);
        match head.to_non_zero() {
            Some(non_zero) => {
                let r = Self::new(Natural::new(non_zero, ds));
                proof {
                    assert(seq![Digit::NonZero(non_zero)] + dec_digits(n as nat).remove(0)
                        =~= dec_digits(n as nat));
                }
                r
            },
            None => None,
        }
    }
}

/// The decimal digits of `n`, most significant first, with no entry at all
/// for zero.
pub fn digits(n: u32) -> (r: Vec<Digit>)
    ensures
        r@ == dec_digits(n as nat),
{
    split_positive(n)
}

} // verus!
