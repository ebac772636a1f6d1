//! The loader's interrupt descriptor table: 256 descriptors of 16 bytes each.

use vstd::prelude::*;

pub mod idt;

verus! {

/// The vectors of the table.
pub const INTR_CNT: usize = 256;

/// The kinds of system descriptor, each with the number that stands for
/// it in a descriptor's type field.
#[derive(Clone, Copy, PartialEq, Eq, Structural, Debug)]
pub enum SystemDescriptorTypes {
    _LDT,
    _AvailableTSS,
    _BusyTSS,
    _CallGate,
    InterruptGate,
    _TrapGate,
}

impl SystemDescriptorTypes {
    /// The number of the kind.
    pub open spec fn spec_code(self) -> u32 {
        match self {
            SystemDescriptorTypes::_LDT => 2,
            SystemDescriptorTypes::_AvailableTSS => 9,
            SystemDescriptorTypes::_BusyTSS => 11,
            SystemDescriptorTypes::_CallGate => 12,
            SystemDescriptorTypes::InterruptGate => 14,
            SystemDescriptorTypes::_TrapGate => 15,
        }
    }

    /// The number of the kind.
    #[verifier::when_used_as_spec(spec_code)]
    pub fn code(self) -> (result: u32)
        ensures
            result == self.spec_code(),
    {
        match self {
            SystemDescriptorTypes::_LDT => 2,
            SystemDescriptorTypes::_AvailableTSS => 9,
            SystemDescriptorTypes::_BusyTSS => 11,
            SystemDescriptorTypes::_CallGate => 12,
            SystemDescriptorTypes::InterruptGate => 14,
            SystemDescriptorTypes::_TrapGate => 15,
        }
    }
}

} // verus!
