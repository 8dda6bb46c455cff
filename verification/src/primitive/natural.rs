use vstd::prelude::*;

use crate::text::Digit;
use crate::text::NonZeroDigit;
use crate::text::dec_digits;
use crate::text::lemma_dec_digits_leading;

verus! {

/// A non-empty decimal digit sequence whose first digit is non-zero: the
/// canonical rendering of a positive number.
///
/// The non-zero head is stored apart from the tail, so no value of this type
/// can carry a leading zero.  Its view is the whole digit sequence, head
/// first.
#[derive(Debug, PartialEq)]
pub struct Natural {
    head: NonZeroDigit,
    tail: Vec<Digit>,
}

impl View for Natural {
    type V = Seq<Digit>;

    closed spec fn view(&self) -> Seq<Digit> {
        seq![Digit::NonZero(self.head)] + self.tail@
    }
}

impl Natural {
    /// The one-digit number `head`.
    pub fn new(head: NonZeroDigit) -> (r: Natural)
        ensures
            r@ == seq![Digit::NonZero(head)],
    {
        let r = Natural { head, tail: Vec::new() };
        proof {
            assert(r@ =~= seq![Digit::NonZero(head)]);
        }
        r
    }

    /// The rendering of `n`; `None` iff `n` is zero, which has no canonical
    /// positive rendering.
    pub fn from_int(n: u32) -> (r: Option<Natural>)
        ensures
            n == 0 ==> r is None,
            n > 0 ==> (r matches Some(natural) && natural@ == dec_digits(n as nat)),
    {
        proof {
            lemma_dec_digits_leading(n as nat);
        }
        Self::from_digits(Digit::split(n))
    }

    /// The number written by `digits` as they stand: fails on an empty
    /// sequence and on any leading zero digit, succeeds on exactly the
    /// sequences whose first digit is non-zero, and then reproduces the
    /// digits unchanged.
    pub fn from_digits(digits: Vec<Digit>) -> (r: Option<Natural>)
        ensures
            digits@.len() == 0 || digits@[0] == Digit::Zero ==> r is None,
            digits@.len() > 0 && digits@[0] != Digit::Zero ==> (r matches Some(natural)
                && natural@ == digits@),
    {
        if digits.len() == 0 {
            return None;
        }
        match digits[0] {
            Digit::Zero => None,
            Digit::NonZero(non_zero) => {
                let mut result = Natural::new(non_zero);
                let mut i: usize = 1;
                while i < digits.len()
                    invariant
                        1 <= i <= digits@.len(),
                        digits@[0] == Digit::NonZero(non_zero),
                        result@ == digits@.take(i as int),
                    decreases digits@.len() - i,
                {
                    result.push(digits[i]);
                    proof {
                        assert(digits@.take(i as int).push(digits@[i as int]) =~= digits@.take(
                            i + 1,
                        ));
                    }
                    i += 1;
                }
                proof {
                    assert(digits@.take(digits@.len() as int) =~= digits@);
                }
                Some(result)
            },
        }
    }

    /// Appends `digit` at the least-significant end.
    pub fn push(&mut self, digit: Digit)
        ensures
            final (self)@ == old(self)@.push(digit),
    {
        proof {
            assert(old(self)@.push(digit) =~= seq![Digit::NonZero(old(self).head)] + old(
                self,
            ).tail@.push(digit));
        }
        self.tail.push(digit)
    }

    /// How many digits the number has; equal to the length of the view.
    pub fn len(&self) -> (r: usize)
        requires
            self@.len() <= usize::MAX,
        ensures
            r == self@.len(),
    {
        self.tail.len() + 1
    }
}

} // verus!
