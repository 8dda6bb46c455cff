use vstd::prelude::*;

use crate::primitive::FixedCount;
use crate::primitive::FixedCountV;

use super::chiral_flag::ChiralFlag;
use super::version::Version;

verus! {

/// The model of a counts block.
pub struct CountsV {
    pub atoms: FixedCountV,
    pub bonds: FixedCountV,
    pub atom_lists: FixedCountV,
    pub chiral: ChiralFlag,
    pub version: Version,
}

/// The counts line of the header: the atom, bond and atom-list counts, the
/// chirality flag, and the version tag.
#[derive(Debug, PartialEq)]
pub struct Counts {
    pub atoms: FixedCount<3>,
    pub bonds: FixedCount<3>,
    pub atom_lists: FixedCount<3>,
    pub chiral: ChiralFlag,
    pub version: Version,
}

impl View for Counts {
    type V = CountsV;

    open spec fn view(&self) -> CountsV {
        CountsV {
            atoms: self.atoms@,
            bonds: self.bonds@,
            atom_lists: self.atom_lists@,
            chiral: self.chiral,
            version: self.version,
        }
    }
}

} // verus!
