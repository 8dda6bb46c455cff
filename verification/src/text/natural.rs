use vstd::prelude::*;

use super::digit::Digit;
use super::digit::dec_digits;
use super::non_zero_digit::NonZeroDigit;

verus! {

/// The suffix of `s` that starts at its first non-zero digit: the permissive
/// reading of a digit sequence, which skips any number of leading zeros and
/// yields nothing when every digit is zero (or there is none).
pub open spec fn permissive_digits(s: Seq<Digit>) -> Option<Seq<Digit>>
    decreases s.len(),
{
    if s.len() == 0 {
        None
    } else if s[0] != Digit::Zero {
        Some(s)
    } else {
        permissive_digits(s.skip(1))
    }
}

/// A non-empty digit sequence with a non-zero first digit, built by the
/// permissive reading that legacy count-like fields use: leading zeros are
/// skipped rather than rejected.
///
/// This is deliberately distinct from the strict construction that literal
/// numeric fields use, which fails on any leading zero; the two readings
/// accept different inputs and must not be merged.
#[derive(Debug, PartialEq, Clone)]
pub struct Natural {
    pub head: NonZeroDigit,
    pub tail: Vec<Digit>,
}

impl View for Natural {
    type V = Seq<Digit>;

    open spec fn view(&self) -> Seq<Digit> {
        seq![Digit::NonZero(self.head)] + self.tail@
    }
}

impl Natural {
    /// The number with the given head and tail digits.
    pub fn new(head: NonZeroDigit, tail: Vec<Digit>) -> (r: Natural)
        ensures
            r == (Natural { head, tail }),
            r@ == seq![Digit::NonZero(head)] + tail@,
    {
        Natural { head, tail }
    }

    /// The one-digit number `head`.
    pub fn from_digit(head: NonZeroDigit) -> (r: Natural)
        ensures
            r@ == seq![Digit::NonZero(head)],
    {
        let r = Natural { head, tail: Vec::new() };
        proof {
            assert(r@ =~= seq![Digit::NonZero(head)]);
        }
        r
    }

    /// The permissive reading of `digits`: leading zeros are skipped, the
    /// first non-zero digit becomes the head, and the rest follow unchanged;
    /// nothing is read from an all-zero or empty sequence.
    pub fn from_digits(digits: Vec<Digit>) -> (r: Option<Natural>)
        ensures
            match r {
                Some(natural) => permissive_digits(digits@) == Some(natural@),
                None => permissive_digits(digits@) is None,
            },
    {
        let mut i: usize = 0;
        proof {
            assert(digits@.skip(0) =~= digits@);
        }
        while i < digits.len()
            invariant
                0 <= i <= digits@.len(),
                permissive_digits(digits@) == permissive_digits(digits@.skip(i as int)),
            decreases digits@.len() - i,
        {
            match digits[i] {
                Digit::Zero => {
                    proof {
                        assert(digits@.skip(i as int).skip(1) =~= digits@.skip(i + 1));
                    }
                    i += 1;
                },
                Digit::NonZero(non_zero) => {
                    let mut tail: Vec<Digit> = Vec::new();
                    let mut j: usize = i + 1;
                    while j < digits.len()
                        invariant
                            i + 1 <= j <= digits@.len(),
                            tail@ == digits@.subrange(i + 1, j as int),
                        decreases digits@.len() - j,
                    {
                        tail.push(digits[j]);
                        proof {
                            assert(digits@.subrange(i + 1, j as int).push(digits@[j as int])
                                =~= digits@.subrange(i + 1, j + 1));
                        }
                        j += 1;
                    }
                    let r = Natural { head: non_zero, tail };
                    proof {
                        assert(r@ =~= digits@.skip(i as int));
                    }
                    return Some(r);
                },
            }
        }
        proof {
            assert(digits@.skip(i as int) =~= Seq::<Digit>::empty());
        }
        None
    }

    /// How many digits the number has; equal to the length of the view.
    pub fn width(&self) -> (r: usize)
        requires
            self@.len() <= usize::MAX,
        ensures
            r == self@.len(),
    {
        self.tail.len() + 1
    }
}

/// The permissive reading of a digit sequence is one of its suffixes, so it
/// is never longer than the sequence itself, and it is never empty.
pub proof fn lemma_permissive_len(s: Seq<Digit>)
    ensures
        permissive_digits(s) matches Some(t) ==> 1 <= t.len() <= s.len(),
    decreases s.len(),
{
    if s.len() > 0 && s[0] == Digit::Zero {
        lemma_permissive_len(s.skip(1));
    }
}

/// A positive number's rendering reads permissively as itself.
pub proof fn lemma_permissive_of_rendering(n: nat)
    ensures
        n > 0 ==> permissive_digits(dec_digits(n)) == Some(dec_digits(n)),
{
    if n > 0 {
        super::digit::lemma_dec_digits_leading(n);
    }
}

} // verus!
