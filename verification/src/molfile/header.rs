use vstd::prelude::*;

use crate::primitive::Line;

use super::counts::Counts;
use super::counts::CountsV;
use super::molecule_name::MoleculeName;
use super::parameters::Parameters;
use super::parameters::ParametersV;

verus! {

/// The model of a decoded header.
pub struct HeaderV {
    pub molecule_name: Seq<u8>,
    pub parameters: Option<ParametersV>,
    pub comment: Seq<u8>,
    pub counts: CountsV,
}

/// The decoded header of a connection-table file: the molecule name, the
/// optional parameters block, the comment line, and the counts line.
#[derive(Debug, PartialEq)]
pub struct Header {
    pub molecule_name: MoleculeName,
    pub parameters: Option<Parameters>,
    pub comment: Line<80>,
    pub counts: Counts,
}

impl View for Header {
    type V = HeaderV;

    open spec fn view(&self) -> HeaderV {
        HeaderV {
            molecule_name: self.molecule_name@,
            parameters: match &self.parameters {
                Some(parameters) => Some(parameters@),
                None => None,
            },
            comment: self.comment@,
            counts: self.counts@,
        }
    }
}

} // verus!
