use vstd::prelude::*;

use crate::protocol::Builder;
use crate::protocol::Error;
use crate::protocol::Target;
use crate::protocol::Transition;
use crate::protocol::space_bytes;
use crate::protocol::two_or_three_bytes;
use crate::protocol::v_bytes;
use crate::protocol::zero_bytes;
use crate::text::Printable;

verus! {

/// What one symbol byte does to the version-tag machine: one blank, the
/// letter `V`, a selector digit restricted to `2` or `3`, then exactly two
/// more `0` columns; each column names its own acceptable symbols.
pub open spec fn version_step(m: VersionBuilder, c: u8) -> Transition<VersionBuilder, Version> {
    match m {
        VersionBuilder::Pad => {
            if c == 0x20 {
                Transition::Next(VersionBuilder::V)
            } else {
                Transition::Fail(space_bytes())
            }
        },
        VersionBuilder::V => {
            if c == 0x56 {
                Transition::Next(VersionBuilder::Digit)
            } else {
                Transition::Fail(v_bytes())
            }
        },
        VersionBuilder::Digit => {
            if c == 0x32 {
                Transition::Next(VersionBuilder::V2(0))
            } else if c == 0x33 {
                Transition::Next(VersionBuilder::V3(0))
            } else {
                Transition::Fail(two_or_three_bytes())
            }
        },
        VersionBuilder::V2(zeroes) => {
            if c == 0x30 {
                if zeroes == 2 {
                    Transition::Done(Version::V2)
                } else {
                    Transition::Next(VersionBuilder::V2((zeroes + 1) as usize))
                }
            } else {
                Transition::Fail(zero_bytes())
            }
        },
        VersionBuilder::V3(zeroes) => {
            if c == 0x30 {
                if zeroes == 2 {
                    Transition::Done(Version::V3)
                } else {
                    Transition::Next(VersionBuilder::V3((zeroes + 1) as usize))
                }
            } else {
                Transition::Fail(zero_bytes())
            }
        },
    }
}

/// The version tag never accepts the end of input: all six of its columns
/// are mandatory.
pub open spec fn version_finish(m: VersionBuilder) -> Option<Version> {
    None
}

/// The connection-table version literal: ` V2000` or ` V3000`.
#[derive(Debug, Clone, Copy, PartialEq, Eq, Structural)]
pub enum Version {
    V2,
    V3,
}

impl Version {
    /// A fresh decoding machine for the version tag.
    pub fn start() -> (r: VersionBuilder)
        ensures
            r.inv(),
            r.model() == VersionBuilder::Pad,
    {
        VersionBuilder::Pad
    }
}

/// The decoding state machine for [`Version`]: which of the six columns
/// comes next, and — once the selector digit chose a branch — how many of
/// the trailing zero columns have been consumed.
#[derive(Debug, Clone, Copy, PartialEq, Eq, Structural)]
pub enum VersionBuilder {
    Pad,
    V,
    Digit,
    V2(usize),
    V3(usize),
}

impl Builder for VersionBuilder {
    type Product = Version;

    type StateModel = VersionBuilder;

    type ProductModel = Version;

    open spec fn inv(&self) -> bool {
        match self {
            VersionBuilder::V2(zeroes) => *zeroes <= 2,
            VersionBuilder::V3(zeroes) => *zeroes <= 2,
            _ => true,
        }
    }

    open spec fn model(&self) -> VersionBuilder {
        *self
    }

    open spec fn product_model(product: &Version) -> Version {
        *product
    }

    open spec fn spec_step(m: VersionBuilder, symbol: u8) -> Transition<VersionBuilder, Version> {
        version_step(m, symbol)
    }

    open spec fn spec_finish(m: VersionBuilder) -> Option<Version> {
        version_finish(m)
    }

    fn push(self, printable: Printable) -> (r: Result<Target<Version, VersionBuilder>, Error>) {
        match self {
            VersionBuilder::Pad => {
                if printable.to_byte() == 0x20 {
                    Ok(Target::Builder(VersionBuilder::V))
                } else {
                    Err(Error::space())
                }
            },
            VersionBuilder::V => {
                if printable.to_byte() == 0x56 {
                    Ok(Target::Builder(VersionBuilder::Digit))
                } else {
                    Err(Error::v())
                }
            },
            VersionBuilder::Digit => {
                match printable.to_byte() {
                    0x32 => Ok(Target::Builder(VersionBuilder::V2(0))),
                    0x33 => Ok(Target::Builder(VersionBuilder::V3(0))),
                    _ => Err(Error::two_or_three()),
                }
            },
            VersionBuilder::V2(zeroes) => {
                if printable.to_byte() == 0x30 {
                    if zeroes == 2 {
                        Ok(Target::Product(Version::V2))
                    } else {
                        Ok(Target::Builder(VersionBuilder::V2(zeroes + 1)))
                    }
                } else {
                    Err(Error::zero())
                }
            },
            VersionBuilder::V3(zeroes) => {
                if printable.to_byte() == 0x30 {
                    if zeroes == 2 {
                        Ok(Target::Product(Version::V3))
                    } else {
                        Ok(Target::Builder(VersionBuilder::V3(zeroes + 1)))
                    }
                } else {
                    Err(Error::zero())
                }
            },
        }
    }

    fn done(self) -> (r: Option<Version>) {
        None
    }
}

} // verus!
