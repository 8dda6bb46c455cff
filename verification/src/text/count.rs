use vstd::prelude::*;

use super::digit::Digit;
use super::digit::dec_digits;
use super::digit::split_positive;
use super::natural::Natural;
use super::natural::lemma_permissive_of_rendering;

verus! {

/// A non-negative count read permissively: zero, or a positive number.
#[derive(Debug, PartialEq)]
pub enum Count {
    Positive(Natural),
    Zero,
}

impl Count {
    /// The count with value `n`: zero for zero, otherwise the digits of `n`.
    pub fn from_int(n: u32) -> (r: Count)
        ensures
            n == 0 ==> r == Count::Zero,
            n > 0 ==> (r matches Count::Positive(natural) && natural@ == dec_digits(n as nat)),
    {
        proof {
            lemma_permissive_of_rendering(n as nat);
        }
        let ds = digits(n);
        match Natural::from_digits(ds) {
            Some(natural) => Count::Positive(natural),
            None => Count::Zero,
        }
    }
}

/// The decimal digits of `n`, most significant first, with no entry at all
/// for zero.
fn digits(n: u32) -> (r: Vec<Digit>)
    ensures
        r@ == dec_digits(n as nat),
{
    split_positive(n)
}

} // verus!
