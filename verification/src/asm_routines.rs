//! What the processor's identification and the APIC base register say
//! about the local APIC.

use vstd::prelude::*;
use crate::apic::LapicRegisters;

verus! {

/// Whether bit `index` of `value` is set.
pub open spec fn bit_set(value: u32, index: u32) -> bool {
    (value >> index) & 0x1 == 0x1
}

/// The address of the APIC's window that the base register names: its
/// bits 12 to 35, of which `low` holds bits 12 to 31 and `high` the rest.
pub open spec fn apic_base_address(high: u32, low: u32) -> u64 {
    (((high & 0x0000_000f) as u64) << 32) | ((low & 0xffff_f000) as u64)
}

/// Whether the processor has a local APIC, from the feature bits that
/// identification leaf 1 leaves in `edx`: bit 9.
pub fn cpuid_lapic_present(edx: u32) -> (result: bool)
    ensures
        result == bit_set(edx, 9),
{
    ((edx >> 9) & 0x1) == 0x1
}

/// Whether the processor supports the x2APIC, from the feature bits that
/// identification leaf 1 leaves in `ecx`: bit 21.
pub fn cpuid_x2apic_enabled(ecx: u32) -> (result: bool)
    ensures
        result == bit_set(ecx, 21),
{
    ((ecx >> 21) & 0x1) == 0x1
}

/// What the APIC base register, read as `high` and `low`, says: the
/// registers at the address it names, whether this is the processor that
/// started the machine (bit 8), whether the APIC is on (bit 11), and
/// whether it is in x2APIC mode (bit 10).
pub fn cpuid_lapic_enabled(high: u32, low: u32) -> (result: (LapicRegisters, bool, bool, bool))
    requires
        apic_base_address(high, low) <= usize::MAX,
    ensures
        result.0@ == LapicRegisters::fresh(apic_base_address(high, low) as usize),
        result.1 == bit_set(low, 8),
        result.2 == bit_set(low, 11),
        result.3 == bit_set(low, 10),
{
    let address: u64 = (((high & 0x0000_000f) as u64) << 32) | ((low & 0xffff_f000) as u64);
    let bootstrap = (low >> 8) & 0x1 == 0x1;
    let enabled = (low >> 11) & 0x1 == 0x1;
    let extended = (low >> 10) & 0x1 == 0x1;
    (LapicRegisters::new(address as usize), bootstrap, enabled, extended)
}

/// Whether the address that the APIC base register names fits the
/// machine's addresses.
pub fn apic_base_fits(high: u32, low: u32) -> (result: bool)
    ensures
        result == (apic_base_address(high, low) <= usize::MAX),
{
    let address: u64 = (((high & 0x0000_000f) as u64) << 32) | ((low & 0xffff_f000) as u64);
    address <= usize::MAX as u64
}

} // verus!
