use vstd::prelude::*;

use crate::primitive::FixedInteger;
use crate::primitive::FixedIntegerV;
use crate::primitive::FixedReal;
use crate::primitive::FixedRealV;
use crate::primitive::Sequence;

verus! {

/// The model of a parameters block.
pub struct ParametersV {
    pub user_initials: Seq<u8>,
    pub program_name: Seq<u8>,
    pub timestamp: Seq<u8>,
    pub dimensional_codes: Seq<u8>,
    pub major_scaling: FixedIntegerV,
    pub minor_scaling: FixedRealV,
    pub energy: FixedRealV,
    pub registry_number: FixedIntegerV,
}

/// The optional parameters line of the header: five opaque tokens, two
/// fixed-point reals and two fixed integers, in the column layout the
/// format mandates.
#[derive(Debug, PartialEq)]
pub struct Parameters {
    pub user_initials: Sequence<2>,
    pub program_name: Sequence<8>,
    pub timestamp: Sequence<10>,
    pub dimensional_codes: Sequence<2>,
    pub major_scaling: FixedInteger<2>,
    pub minor_scaling: FixedReal<4, 5>,
    pub energy: FixedReal<6, 5>,
    pub registry_number: FixedInteger<6>,
}

impl View for Parameters {
    type V = ParametersV;

    open spec fn view(&self) -> ParametersV {
        ParametersV {
            user_initials: self.user_initials@,
            program_name: self.program_name@,
            timestamp: self.timestamp@,
            dimensional_codes: self.dimensional_codes@,
            major_scaling: self.major_scaling@,
            minor_scaling: self.minor_scaling@,
            energy: self.energy@,
            registry_number: self.registry_number@,
        }
    }
}

} // verus!
