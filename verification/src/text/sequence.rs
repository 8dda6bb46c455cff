use vstd::prelude::*;

use vstd::string::StringSliceAdditionalSpecFns;

use super::character::ByteClass;
use super::character::Character;
use super::character::classify;

verus! {

/// A sequence of at most `L` classified characters, as collected by a line
/// scan.
#[derive(Debug, PartialEq)]
pub struct Sequence<const L: usize>(Vec<Character>);

impl<const L: usize> View for Sequence<L> {
    type V = Seq<ByteClass>;

    closed spec fn view(&self) -> Seq<ByteClass> {
        self.0@.map_values(|c: Character| c@)
    }
}

impl<const L: usize> Sequence<L> {
    /// The sequence holding `chars`, if there are at most `L` of them.
    pub fn new(chars: Vec<Character>) -> (r: Option<Sequence<L>>)
        ensures
            chars@.len() > L ==> r is None,
            chars@.len() <= L ==> (r matches Some(s) && s@ == chars@.map_values(
                |c: Character| c@,
            )),
    {
        if chars.len() > L {
            None
        } else {
            Some(Sequence(chars))
        }
    }

    /// How many characters the sequence holds.
    pub fn len(&self) -> (r: usize)
        ensures
            r == self@.len(),
    {
        self.0.len()
    }

    /// Every byte of `s`, classified; nothing when `s` holds more than `L`
    /// bytes.
    pub fn from_str(s: &str) -> (r: Option<Sequence<L>>)
        ensures
            s.spec_bytes().len() > L ==> r is None,
            s.spec_bytes().len() <= L ==> (r matches Some(sequence) && sequence@
                == s.spec_bytes().map_values(|b: u8| classify(b))),
    {
        let bytes = s.as_bytes();
        if bytes.len() > L {
            return None;
        }
        let mut chars: Vec<Character> = Vec::new();
        let mut i: usize = 0;
        while i < bytes.len()
            invariant
                bytes@ == s.spec_bytes(),
                0 <= i <= bytes@.len(),
                chars@.map_values(|c: Character| c@) == bytes@.take(i as int).map_values(
                    |b: u8| classify(b),
                ),
            decreases bytes@.len() - i,
        {
            let ghost snapshot = chars@;
            chars.push(Character::from_byte(bytes[i]));
            proof {
                assert(chars@.map_values(|c: Character| c@) =~= snapshot.map_values(
                    |c: Character| c@,
                ).push(classify(bytes@[i as int])));
                assert(bytes@.take(i + 1).map_values(|b: u8| classify(b)) =~= bytes@.take(
                    i as int,
                ).map_values(|b: u8| classify(b)).push(classify(bytes@[i as int])));
            }
            i += 1;
        }
        proof {
            assert(bytes@.take(bytes@.len() as int) =~= bytes@);
        }
        Some(Sequence(chars))
    }
}

} // verus!
