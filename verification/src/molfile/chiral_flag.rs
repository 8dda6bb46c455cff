use vstd::prelude::*;

use crate::protocol::Builder;
use crate::protocol::Error;
use crate::protocol::Target;
use crate::protocol::Transition;
use crate::protocol::flag_bytes;
use crate::protocol::space_bytes;
use crate::text::Printable;

verus! {

/// What one symbol byte does to the chirality-flag machine: two mandatory
/// blank columns, then a digit restricted to `0` or `1`.
pub open spec fn chiral_flag_step(consumed: int, c: u8) -> Transition<int, ChiralFlag> {
    if consumed < 2 {
        if c == 0x20 {
            Transition::Next(consumed + 1)
        } else {
            Transition::Fail(space_bytes())
        }
    } else {
        if c == 0x30 {
            Transition::Done(ChiralFlag::NotChiral)
        } else if c == 0x31 {
            Transition::Done(ChiralFlag::Chiral)
        } else {
            Transition::Fail(flag_bytes())
        }
    }
}

/// The chirality flag never accepts the end of input: its three columns are
/// mandatory.
pub open spec fn chiral_flag_finish(consumed: int) -> Option<ChiralFlag> {
    None
}

/// Whether the molecule is chiral, decoded from two blank columns followed
/// by the digit `1` (chiral) or `0` (not chiral).
#[derive(Debug, Clone, Copy, PartialEq, Eq, Structural)]
pub enum ChiralFlag {
    Chiral,
    NotChiral,
}

impl ChiralFlag {
    /// A fresh decoding machine for the chirality flag.
    pub fn start() -> (r: ChiralFlagBuilder)
        ensures
            r.inv(),
            r.model() == 0int,
    {
        ChiralFlagBuilder(0)
    }
}

/// The decoding state machine for [`ChiralFlag`]: how many of the two blank
/// columns have been consumed.
#[derive(Debug, PartialEq)]
pub struct ChiralFlagBuilder(pub usize);

impl Builder for ChiralFlagBuilder {
    type Product = ChiralFlag;

    type StateModel = int;

    type ProductModel = ChiralFlag;

    open spec fn inv(&self) -> bool {
        true
    }

    open spec fn model(&self) -> int {
        self.0 as int
    }

    open spec fn product_model(product: &ChiralFlag) -> ChiralFlag {
        *product
    }

    open spec fn spec_step(m: int, symbol: u8) -> Transition<int, ChiralFlag> {
        chiral_flag_step(m, symbol)
    }

    open spec fn spec_finish(m: int) -> Option<ChiralFlag> {
        chiral_flag_finish(m)
    }

    fn push(self, printable: Printable) -> (r: Result<Target<ChiralFlag, ChiralFlagBuilder>, Error>) {
        if self.0 < 2 {
            if printable.to_byte() == 0x20 {
                Ok(Target::Builder(ChiralFlagBuilder(self.0 + 1)))
            } else {
                Err(Error::space())
            }
        } else {
            match printable.to_byte() {
                0x30 => Ok(Target::Product(ChiralFlag::NotChiral)),
                0x31 => Ok(Target::Product(ChiralFlag::Chiral)),
                _ => Err(Error::flag()),
            }
        }
    }

    fn done(self) -> (r: Option<ChiralFlag>) {
        None
    }
}

} // verus!
